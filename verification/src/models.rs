//! Records served by the backend and the payloads sent to it.
//!
//! Every type has a view: the same fields with each string taken as its
//! sequence of characters. Contracts elsewhere in the crate speak of views.

use vstd::prelude::*;

verus! {

/// A salary amount, carried as the bit pattern of an IEEE 754 binary64
/// number. The library never computes with an amount: it only moves it
/// between records, forms and payloads.
#[derive(Debug, Copy, PartialEq, Eq, Structural)]
pub struct Salary {
    pub bits: u64,
}

impl Clone for Salary {
    fn clone(&self) -> (res: Self)
        ensures
            res == *self,
    {
        Salary { bits: self.bits }
    }
}

impl Salary {
    /// The amount zero (all bits clear).
    pub fn zero() -> (res: Self)
        ensures
            res.bits == 0,
    {
        Salary { bits: 0 }
    }

    /// The amount with the given bit pattern.
    pub fn from_bits(bits: u64) -> (res: Self)
        ensures
            res.bits == bits,
    {
        Salary { bits }
    }

    /// The amount read from a form field, or zero where the field did not
    /// hold a number.
    pub fn or_zero(parsed: Option<Salary>) -> (res: Self)
        ensures
            res == spec_or_zero(parsed),
    {
        match parsed {
            Some(amount) => amount,
            None => Salary { bits: 0 },
        }
    }
}

/// The amount read from a form field, or zero where the field held no
/// number.
pub open spec fn spec_or_zero(parsed: Option<Salary>) -> Salary {
    match parsed {
        Some(amount) => amount,
        None => Salary { bits: 0 },
    }
}

/// The string, or nothing where it is empty: how a form field that was left
/// blank enters a payload.
pub open spec fn spec_non_empty(text: Seq<char>) -> Option<Seq<char>> {
    if text.len() == 0 {
        None
    } else {
        Some(text)
    }
}

/// A copy of `text`, or `None` where `text` is empty.
pub fn non_empty(text: &String) -> (res: Option<String>)
    ensures
        res.deep_view() == spec_non_empty(text@),
{
    if text.as_str().is_empty() {
        None
    } else {
        Some(text.clone())
    }
}

/// A department as the backend reports it. `head_id` names an employee.
#[derive(Debug)]
pub struct Department {
    pub id: String,
    pub name: String,
    pub head_id: Option<String>,
    pub created_at: Option<String>,
    pub updated_at: Option<String>,
}

/// The view of a [`Department`]: each text as its sequence of characters.
pub ghost struct DepartmentView {
    pub id: Seq<char>,
    pub name: Seq<char>,
    pub head_id: Option<Seq<char>>,
    pub created_at: Option<Seq<char>>,
    pub updated_at: Option<Seq<char>>,
}

impl View for Department {
    type V = DepartmentView;

    open spec fn view(&self) -> DepartmentView {
        DepartmentView {
            id: self.id@,
            name: self.name@,
            head_id: self.head_id.deep_view(),
            created_at: self.created_at.deep_view(),
            updated_at: self.updated_at.deep_view(),
        }
    }
}

impl DeepView for Department {
    type V = DepartmentView;

    open spec fn deep_view(&self) -> DepartmentView {
        self@
    }
}

impl Clone for Department {
    fn clone(&self) -> (res: Self)
        ensures
            res == *self,
    {
        Department {
            id: self.id.clone(),
            name: self.name.clone(),
            head_id: self.head_id.clone(),
            created_at: self.created_at.clone(),
            updated_at: self.updated_at.clone(),
        }
    }
}

/// Payload that creates a department.
#[derive(Debug)]
pub struct CreateDepartmentRequest {
    pub name: String,
    pub head_id: Option<String>,
}

/// The view of a [`CreateDepartmentRequest`]: each text as its sequence of characters.
pub ghost struct CreateDepartmentRequestView {
    pub name: Seq<char>,
    pub head_id: Option<Seq<char>>,
}

impl View for CreateDepartmentRequest {
    type V = CreateDepartmentRequestView;

    open spec fn view(&self) -> CreateDepartmentRequestView {
        CreateDepartmentRequestView {
            name: self.name@,
            head_id: self.head_id.deep_view(),
        }
    }
}

impl DeepView for CreateDepartmentRequest {
    type V = CreateDepartmentRequestView;

    open spec fn deep_view(&self) -> CreateDepartmentRequestView {
        self@
    }
}

impl Clone for CreateDepartmentRequest {
    fn clone(&self) -> (res: Self)
        ensures
            res == *self,
    {
        CreateDepartmentRequest {
            name: self.name.clone(),
            head_id: self.head_id.clone(),
        }
    }
}

impl Default for CreateDepartmentRequest {
    fn default() -> (res: Self)
        ensures
            res@ == CreateDepartmentRequest::spec_default(),
    {
        CreateDepartmentRequest {
            name: String::new(),
            head_id: None,
        }
    }
}

impl CreateDepartmentRequest {
    /// The payload with every text empty and every optional field absent.
    pub open spec fn spec_default() -> CreateDepartmentRequestView {
        CreateDepartmentRequestView {
            name: Seq::empty(),
            head_id: None,
        }
    }
}

/// Partial payload that updates a department: an absent field is not to be changed.
#[derive(Debug)]
pub struct UpdateDepartmentRequest {
    pub name: Option<String>,
    pub head_id: Option<String>,
}

/// The view of a [`UpdateDepartmentRequest`]: each text as its sequence of characters.
pub ghost struct UpdateDepartmentRequestView {
    pub name: Option<Seq<char>>,
    pub head_id: Option<Seq<char>>,
}

impl View for UpdateDepartmentRequest {
    type V = UpdateDepartmentRequestView;

    open spec fn view(&self) -> UpdateDepartmentRequestView {
        UpdateDepartmentRequestView {
            name: self.name.deep_view(),
            head_id: self.head_id.deep_view(),
        }
    }
}

impl DeepView for UpdateDepartmentRequest {
    type V = UpdateDepartmentRequestView;

    open spec fn deep_view(&self) -> UpdateDepartmentRequestView {
        self@
    }
}

impl Clone for UpdateDepartmentRequest {
    fn clone(&self) -> (res: Self)
        ensures
            res == *self,
    {
        UpdateDepartmentRequest {
            name: self.name.clone(),
            head_id: self.head_id.clone(),
        }
    }
}

impl Default for UpdateDepartmentRequest {
    fn default() -> (res: Self)
        ensures
            res@ == UpdateDepartmentRequest::spec_default(),
    {
        UpdateDepartmentRequest {
            name: None,
            head_id: None,
        }
    }
}

impl UpdateDepartmentRequest {
    /// The payload with every text empty and every optional field absent.
    pub open spec fn spec_default() -> UpdateDepartmentRequestView {
        UpdateDepartmentRequestView {
            name: None,
            head_id: None,
        }
    }
}

/// An employee as the backend reports it. `manager_id` names another employee.
#[derive(Debug)]
pub struct Employee {
    pub id: String,
    pub first_name: String,
    pub last_name: String,
    pub email: String,
    pub role: String,
    pub active: bool,
    pub department_id: Option<String>,
    pub manager_id: Option<String>,
    pub salary_grade_id: Option<String>,
    pub hire_date: Option<String>,
    pub created_at: Option<String>,
    pub updated_at: Option<String>,
    pub deleted_at: Option<String>,
}

/// The view of a [`Employee`]: each text as its sequence of characters.
pub ghost struct EmployeeView {
    pub id: Seq<char>,
    pub first_name: Seq<char>,
    pub last_name: Seq<char>,
    pub email: Seq<char>,
    pub role: Seq<char>,
    pub active: bool,
    pub department_id: Option<Seq<char>>,
    pub manager_id: Option<Seq<char>>,
    pub salary_grade_id: Option<Seq<char>>,
    pub hire_date: Option<Seq<char>>,
    pub created_at: Option<Seq<char>>,
    pub updated_at: Option<Seq<char>>,
    pub deleted_at: Option<Seq<char>>,
}

impl View for Employee {
    type V = EmployeeView;

    open spec fn view(&self) -> EmployeeView {
        EmployeeView {
            id: self.id@,
            first_name: self.first_name@,
            last_name: self.last_name@,
            email: self.email@,
            role: self.role@,
            active: self.active,
            department_id: self.department_id.deep_view(),
            manager_id: self.manager_id.deep_view(),
            salary_grade_id: self.salary_grade_id.deep_view(),
            hire_date: self.hire_date.deep_view(),
            created_at: self.created_at.deep_view(),
            updated_at: self.updated_at.deep_view(),
            deleted_at: self.deleted_at.deep_view(),
        }
    }
}

impl DeepView for Employee {
    type V = EmployeeView;

    open spec fn deep_view(&self) -> EmployeeView {
        self@
    }
}

impl Clone for Employee {
    fn clone(&self) -> (res: Self)
        ensures
            res == *self,
    {
        Employee {
            id: self.id.clone(),
            first_name: self.first_name.clone(),
            last_name: self.last_name.clone(),
            email: self.email.clone(),
            role: self.role.clone(),
            active: self.active,
            department_id: self.department_id.clone(),
            manager_id: self.manager_id.clone(),
            salary_grade_id: self.salary_grade_id.clone(),
            hire_date: self.hire_date.clone(),
            created_at: self.created_at.clone(),
            updated_at: self.updated_at.clone(),
            deleted_at: self.deleted_at.clone(),
        }
    }
}

/// Payload that creates an employee.
#[derive(Debug)]
pub struct CreateEmployeeRequest {
    pub first_name: String,
    pub last_name: String,
    pub email: String,
    pub department_id: Option<String>,
    pub manager_id: Option<String>,
    pub role: Option<String>,
    pub salary_grade_id: Option<String>,
    pub hire_date: Option<String>,
}

/// The view of a [`CreateEmployeeRequest`]: each text as its sequence of characters.
pub ghost struct CreateEmployeeRequestView {
    pub first_name: Seq<char>,
    pub last_name: Seq<char>,
    pub email: Seq<char>,
    pub department_id: Option<Seq<char>>,
    pub manager_id: Option<Seq<char>>,
    pub role: Option<Seq<char>>,
    pub salary_grade_id: Option<Seq<char>>,
    pub hire_date: Option<Seq<char>>,
}

impl View for CreateEmployeeRequest {
    type V = CreateEmployeeRequestView;

    open spec fn view(&self) -> CreateEmployeeRequestView {
        CreateEmployeeRequestView {
            first_name: self.first_name@,
            last_name: self.last_name@,
            email: self.email@,
            department_id: self.department_id.deep_view(),
            manager_id: self.manager_id.deep_view(),
            role: self.role.deep_view(),
            salary_grade_id: self.salary_grade_id.deep_view(),
            hire_date: self.hire_date.deep_view(),
        }
    }
}

impl DeepView for CreateEmployeeRequest {
    type V = CreateEmployeeRequestView;

    open spec fn deep_view(&self) -> CreateEmployeeRequestView {
        self@
    }
}

impl Clone for CreateEmployeeRequest {
    fn clone(&self) -> (res: Self)
        ensures
            res == *self,
    {
        CreateEmployeeRequest {
            first_name: self.first_name.clone(),
            last_name: self.last_name.clone(),
            email: self.email.clone(),
            department_id: self.department_id.clone(),
            manager_id: self.manager_id.clone(),
            role: self.role.clone(),
            salary_grade_id: self.salary_grade_id.clone(),
            hire_date: self.hire_date.clone(),
        }
    }
}

impl Default for CreateEmployeeRequest {
    fn default() -> (res: Self)
        ensures
            res@ == CreateEmployeeRequest::spec_default(),
    {
        CreateEmployeeRequest {
            first_name: String::new(),
            last_name: String::new(),
            email: String::new(),
            department_id: None,
            manager_id: None,
            role: None,
            salary_grade_id: None,
            hire_date: None,
        }
    }
}

impl CreateEmployeeRequest {
    /// The payload with every text empty and every optional field absent.
    pub open spec fn spec_default() -> CreateEmployeeRequestView {
        CreateEmployeeRequestView {
            first_name: Seq::empty(),
            last_name: Seq::empty(),
            email: Seq::empty(),
            department_id: None,
            manager_id: None,
            role: None,
            salary_grade_id: None,
            hire_date: None,
        }
    }
}

/// Partial payload that updates an employee: an absent field is not to be changed.
#[derive(Debug)]
pub struct UpdateEmployeeRequest {
    pub first_name: Option<String>,
    pub last_name: Option<String>,
    pub email: Option<String>,
    pub role: Option<String>,
    pub active: Option<bool>,
    pub department_id: Option<String>,
    pub manager_id: Option<String>,
    pub salary_grade_id: Option<String>,
    pub hire_date: Option<String>,
}

/// The view of a [`UpdateEmployeeRequest`]: each text as its sequence of characters.
pub ghost struct UpdateEmployeeRequestView {
    pub first_name: Option<Seq<char>>,
    pub last_name: Option<Seq<char>>,
    pub email: Option<Seq<char>>,
    pub role: Option<Seq<char>>,
    pub active: Option<bool>,
    pub department_id: Option<Seq<char>>,
    pub manager_id: Option<Seq<char>>,
    pub salary_grade_id: Option<Seq<char>>,
    pub hire_date: Option<Seq<char>>,
}

impl View for UpdateEmployeeRequest {
    type V = UpdateEmployeeRequestView;

    open spec fn view(&self) -> UpdateEmployeeRequestView {
        UpdateEmployeeRequestView {
            first_name: self.first_name.deep_view(),
            last_name: self.last_name.deep_view(),
            email: self.email.deep_view(),
            role: self.role.deep_view(),
            active: self.active,
            department_id: self.department_id.deep_view(),
            manager_id: self.manager_id.deep_view(),
            salary_grade_id: self.salary_grade_id.deep_view(),
            hire_date: self.hire_date.deep_view(),
        }
    }
}

impl DeepView for UpdateEmployeeRequest {
    type V = UpdateEmployeeRequestView;

    open spec fn deep_view(&self) -> UpdateEmployeeRequestView {
        self@
    }
}

impl Clone for UpdateEmployeeRequest {
    fn clone(&self) -> (res: Self)
        ensures
            res == *self,
    {
        UpdateEmployeeRequest {
            first_name: self.first_name.clone(),
            last_name: self.last_name.clone(),
            email: self.email.clone(),
            role: self.role.clone(),
            active: self.active,
            department_id: self.department_id.clone(),
            manager_id: self.manager_id.clone(),
            salary_grade_id: self.salary_grade_id.clone(),
            hire_date: self.hire_date.clone(),
        }
    }
}

impl Default for UpdateEmployeeRequest {
    fn default() -> (res: Self)
        ensures
            res@ == UpdateEmployeeRequest::spec_default(),
    {
        UpdateEmployeeRequest {
            first_name: None,
            last_name: None,
            email: None,
            role: None,
            active: None,
            department_id: None,
            manager_id: None,
            salary_grade_id: None,
            hire_date: None,
        }
    }
}

impl UpdateEmployeeRequest {
    /// The payload with every text empty and every optional field absent.
    pub open spec fn spec_default() -> UpdateEmployeeRequestView {
        UpdateEmployeeRequestView {
            first_name: None,
            last_name: None,
            email: None,
            role: None,
            active: None,
            department_id: None,
            manager_id: None,
            salary_grade_id: None,
            hire_date: None,
        }
    }
}

/// A salary grade as the backend reports it.
#[derive(Debug)]
pub struct SalaryGrade {
    pub id: String,
    pub code: String,
    pub base_salary: Salary,
    pub description: Option<String>,
    pub created_at: Option<String>,
}

/// The view of a [`SalaryGrade`]: each text as its sequence of characters.
pub ghost struct SalaryGradeView {
    pub id: Seq<char>,
    pub code: Seq<char>,
    pub base_salary: Salary,
    pub description: Option<Seq<char>>,
    pub created_at: Option<Seq<char>>,
}

impl View for SalaryGrade {
    type V = SalaryGradeView;

    open spec fn view(&self) -> SalaryGradeView {
        SalaryGradeView {
            id: self.id@,
            code: self.code@,
            base_salary: self.base_salary,
            description: self.description.deep_view(),
            created_at: self.created_at.deep_view(),
        }
    }
}

impl DeepView for SalaryGrade {
    type V = SalaryGradeView;

    open spec fn deep_view(&self) -> SalaryGradeView {
        self@
    }
}

impl Clone for SalaryGrade {
    fn clone(&self) -> (res: Self)
        ensures
            res == *self,
    {
        SalaryGrade {
            id: self.id.clone(),
            code: self.code.clone(),
            base_salary: self.base_salary,
            description: self.description.clone(),
            created_at: self.created_at.clone(),
        }
    }
}

/// Payload that creates a salary grade.
#[derive(Debug)]
pub struct CreateSalaryGradeRequest {
    pub code: String,
    pub base_salary: Salary,
    pub description: Option<String>,
}

/// The view of a [`CreateSalaryGradeRequest`]: each text as its sequence of characters.
pub ghost struct CreateSalaryGradeRequestView {
    pub code: Seq<char>,
    pub base_salary: Salary,
    pub description: Option<Seq<char>>,
}

impl View for CreateSalaryGradeRequest {
    type V = CreateSalaryGradeRequestView;

    open spec fn view(&self) -> CreateSalaryGradeRequestView {
        CreateSalaryGradeRequestView {
            code: self.code@,
            base_salary: self.base_salary,
            description: self.description.deep_view(),
        }
    }
}

impl DeepView for CreateSalaryGradeRequest {
    type V = CreateSalaryGradeRequestView;

    open spec fn deep_view(&self) -> CreateSalaryGradeRequestView {
        self@
    }
}

impl Clone for CreateSalaryGradeRequest {
    fn clone(&self) -> (res: Self)
        ensures
            res == *self,
    {
        CreateSalaryGradeRequest {
            code: self.code.clone(),
            base_salary: self.base_salary,
            description: self.description.clone(),
        }
    }
}

impl Default for CreateSalaryGradeRequest {
    fn default() -> (res: Self)
        ensures
            res@ == CreateSalaryGradeRequest::spec_default(),
    {
        CreateSalaryGradeRequest {
            code: String::new(),
            base_salary: Salary::zero(),
            description: None,
        }
    }
}

impl CreateSalaryGradeRequest {
    /// The payload with every text empty and every optional field absent.
    pub open spec fn spec_default() -> CreateSalaryGradeRequestView {
        CreateSalaryGradeRequestView {
            code: Seq::empty(),
            base_salary: (Salary { bits: 0 }),
            description: None,
        }
    }
}

/// Partial payload that updates a salary grade: an absent field is not to be changed.
#[derive(Debug)]
pub struct UpdateSalaryGradeRequest {
    pub code: Option<String>,
    pub base_salary: Option<Salary>,
    pub description: Option<String>,
}

/// The view of a [`UpdateSalaryGradeRequest`]: each text as its sequence of characters.
pub ghost struct UpdateSalaryGradeRequestView {
    pub code: Option<Seq<char>>,
    pub base_salary: Option<Salary>,
    pub description: Option<Seq<char>>,
}

impl View for UpdateSalaryGradeRequest {
    type V = UpdateSalaryGradeRequestView;

    open spec fn view(&self) -> UpdateSalaryGradeRequestView {
        UpdateSalaryGradeRequestView {
            code: self.code.deep_view(),
            base_salary: self.base_salary,
            description: self.description.deep_view(),
        }
    }
}

impl DeepView for UpdateSalaryGradeRequest {
    type V = UpdateSalaryGradeRequestView;

    open spec fn deep_view(&self) -> UpdateSalaryGradeRequestView {
        self@
    }
}

impl Clone for UpdateSalaryGradeRequest {
    fn clone(&self) -> (res: Self)
        ensures
            res == *self,
    {
        UpdateSalaryGradeRequest {
            code: self.code.clone(),
            base_salary: self.base_salary,
            description: self.description.clone(),
        }
    }
}

impl Default for UpdateSalaryGradeRequest {
    fn default() -> (res: Self)
        ensures
            res@ == UpdateSalaryGradeRequest::spec_default(),
    {
        UpdateSalaryGradeRequest {
            code: None,
            base_salary: None,
            description: None,
        }
    }
}

impl UpdateSalaryGradeRequest {
    /// The payload with every text empty and every optional field absent.
    pub open spec fn spec_default() -> UpdateSalaryGradeRequestView {
        UpdateSalaryGradeRequestView {
            code: None,
            base_salary: None,
            description: None,
        }
    }
}

impl UpdateEmployeeRequest {
    /// The partial payload that changes an employee's role and nothing else.
    pub open spec fn spec_role_only(role: Seq<char>) -> UpdateEmployeeRequestView {
        UpdateEmployeeRequestView { role: Some(role), ..UpdateEmployeeRequest::spec_default() }
    }

    /// The partial payload that changes an employee's role and nothing else.
    pub fn role_only(role: &str) -> (res: Self)
        ensures
            res@ == UpdateEmployeeRequest::spec_role_only(role@),
    {
        UpdateEmployeeRequest {
            first_name: None,
            last_name: None,
            email: None,
            role: Some(String::from_str(role)),
            active: None,
            department_id: None,
            manager_id: None,
            salary_grade_id: None,
            hire_date: None,
        }
    }
}

/// A user account as the backend reports it.
#[derive(Debug)]
pub struct User {
    pub id: u64,
    pub name: String,
    pub email: String,
}

/// The view of a [`User`]: each text as its sequence of characters.
pub ghost struct UserView {
    pub id: u64,
    pub name: Seq<char>,
    pub email: Seq<char>,
}

impl View for User {
    type V = UserView;

    open spec fn view(&self) -> UserView {
        UserView { id: self.id, name: self.name@, email: self.email@ }
    }
}

impl DeepView for User {
    type V = UserView;

    open spec fn deep_view(&self) -> UserView {
        self@
    }
}

impl Clone for User {
    fn clone(&self) -> (res: Self)
        ensures
            res == *self,
    {
        User { id: self.id, name: self.name.clone(), email: self.email.clone() }
    }
}

/// Payload that creates a user account.
#[derive(Debug)]
pub struct CreateUserRequest {
    pub name: String,
    pub email: String,
}

/// The view of a [`CreateUserRequest`]: each text as its sequence of characters.
pub ghost struct CreateUserRequestView {
    pub name: Seq<char>,
    pub email: Seq<char>,
}

impl View for CreateUserRequest {
    type V = CreateUserRequestView;

    open spec fn view(&self) -> CreateUserRequestView {
        CreateUserRequestView { name: self.name@, email: self.email@ }
    }
}

impl DeepView for CreateUserRequest {
    type V = CreateUserRequestView;

    open spec fn deep_view(&self) -> CreateUserRequestView {
        self@
    }
}

impl Clone for CreateUserRequest {
    fn clone(&self) -> (res: Self)
        ensures
            res == *self,
    {
        CreateUserRequest { name: self.name.clone(), email: self.email.clone() }
    }
}

} // verus!
