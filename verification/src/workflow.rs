//! The mutation workflow: a confirmed action becomes a plan, a list of
//! gateway calls that ends with the reload of every snapshot the action
//! touches.
//!
//! The plan is fixed when the action is confirmed. Whoever runs it keeps a
//! [`PlanRun`], makes the call that the run names, hands the reply to the
//! run and to [`PersonnelApp::receive`], and goes on until the run names no
//! call. No call waits on the success of an earlier one: a failed call
//! yields a line for the log and the run moves on, so the reloads at the
//! plan's end always happen.
//!
//! When a department gets another head the plan demotes the old head, then
//! promotes the new one, then updates the department. Nothing makes the
//! three calls atomic: where one of them fails the others still take
//! effect, and the reloaded snapshots show what the backend then holds.

use vstd::prelude::*;
use crate::app::{PersonnelApp, PersonnelAppView};
use crate::config::ConfigView;
use crate::dialogs::{ConfirmAction, ConfirmActionView};
use crate::gateway::{ApiClient, ApiError, ApiRequest, ApiRequestView};
use crate::models::{
    non_empty, spec_non_empty, spec_or_zero, CreateDepartmentRequest,
    CreateDepartmentRequestView, CreateEmployeeRequest, CreateEmployeeRequestView,
    CreateSalaryGradeRequest, CreateSalaryGradeRequestView, Department, DepartmentView, Employee,
    EmployeeView, Salary, SalaryGrade, SalaryGradeView, UpdateDepartmentRequest,
    UpdateDepartmentRequestView, UpdateEmployeeRequest, UpdateEmployeeRequestView,
    UpdateSalaryGradeRequest, UpdateSalaryGradeRequestView,
};
use crate::text::{concat2, push_view};

verus! {

/// One gateway call of a plan.
#[derive(Debug)]
pub enum Step {
    DeleteDepartment { id: String },
    DeleteEmployee { id: String },
    DeleteSalaryGrade { id: String },
    /// Gives a former department head the role of an employee.
    DemoteHead { employee_id: String },
    /// Gives a new department head the role of a department head.
    PromoteHead { employee_id: String },
    UpdateDepartment { id: String, req: UpdateDepartmentRequest },
    UpdateEmployee { id: String, req: UpdateEmployeeRequest },
    UpdateSalaryGrade { id: String, req: UpdateSalaryGradeRequest },
    CreateDepartment { req: CreateDepartmentRequest },
    CreateEmployee { req: CreateEmployeeRequest },
    CreateSalaryGrade { req: CreateSalaryGradeRequest },
    /// Fetches the departments anew.
    RefreshDepartments,
    /// Fetches the active employees anew.
    RefreshEmployees,
    /// Fetches the salary grades anew.
    RefreshSalaryGrades,
}

/// The view of a [`Step`]: each text as its sequence of characters.
pub ghost enum StepView {
    DeleteDepartment { id: Seq<char> },
    DeleteEmployee { id: Seq<char> },
    DeleteSalaryGrade { id: Seq<char> },
    DemoteHead { employee_id: Seq<char> },
    PromoteHead { employee_id: Seq<char> },
    UpdateDepartment { id: Seq<char>, req: UpdateDepartmentRequestView },
    UpdateEmployee { id: Seq<char>, req: UpdateEmployeeRequestView },
    UpdateSalaryGrade { id: Seq<char>, req: UpdateSalaryGradeRequestView },
    CreateDepartment { req: CreateDepartmentRequestView },
    CreateEmployee { req: CreateEmployeeRequestView },
    CreateSalaryGrade { req: CreateSalaryGradeRequestView },
    RefreshDepartments,
    RefreshEmployees,
    RefreshSalaryGrades,
}

impl View for Step {
    type V = StepView;

    open spec fn view(&self) -> StepView {
        match self {
            Step::DeleteDepartment { id } => StepView::DeleteDepartment { id: id@ },
            Step::DeleteEmployee { id } => StepView::DeleteEmployee { id: id@ },
            Step::DeleteSalaryGrade { id } => StepView::DeleteSalaryGrade { id: id@ },
            Step::DemoteHead { employee_id } => StepView::DemoteHead { employee_id: employee_id@ },
            Step::PromoteHead { employee_id } => StepView::PromoteHead {
                employee_id: employee_id@,
            },
            Step::UpdateDepartment { id, req } => StepView::UpdateDepartment {
                id: id@,
                req: req@,
            },
            Step::UpdateEmployee { id, req } => StepView::UpdateEmployee { id: id@, req: req@ },
            Step::UpdateSalaryGrade { id, req } => StepView::UpdateSalaryGrade {
                id: id@,
                req: req@,
            },
            Step::CreateDepartment { req } => StepView::CreateDepartment { req: req@ },
            Step::CreateEmployee { req } => StepView::CreateEmployee { req: req@ },
            Step::CreateSalaryGrade { req } => StepView::CreateSalaryGrade { req: req@ },
            Step::RefreshDepartments => StepView::RefreshDepartments,
            Step::RefreshEmployees => StepView::RefreshEmployees,
            Step::RefreshSalaryGrades => StepView::RefreshSalaryGrades,
        }
    }
}

impl DeepView for Step {
    type V = StepView;

    open spec fn deep_view(&self) -> StepView {
        self@
    }
}

/// The role of an employee who heads no department.
pub open spec fn role_employee() -> Seq<char> {
    "Employee"@
}

/// The role of an employee who heads a department.
pub open spec fn role_department_head() -> Seq<char> {
    "DepartmentHead"@
}

impl Step {
    /// The request that performs a step against the backend that `cfg`
    /// describes.
    pub open spec fn spec_request(step: StepView, cfg: ConfigView) -> ApiRequestView {
        match step {
            StepView::DeleteDepartment { id } => ApiClient::spec_delete_department(cfg, id),
            StepView::DeleteEmployee { id } => ApiClient::spec_delete_employee(cfg, id),
            StepView::DeleteSalaryGrade { id } => ApiClient::spec_delete_salary_grade(cfg, id),
            StepView::DemoteHead { employee_id } => ApiClient::spec_update_employee(
                cfg,
                employee_id,
                UpdateEmployeeRequest::spec_role_only(role_employee()),
            ),
            StepView::PromoteHead { employee_id } => ApiClient::spec_update_employee(
                cfg,
                employee_id,
                UpdateEmployeeRequest::spec_role_only(role_department_head()),
            ),
            StepView::UpdateDepartment { id, req } => ApiClient::spec_update_department(
                cfg,
                id,
                req,
            ),
            StepView::UpdateEmployee { id, req } => ApiClient::spec_update_employee(cfg, id, req),
            StepView::UpdateSalaryGrade { id, req } => ApiClient::spec_update_salary_grade(
                cfg,
                id,
                req,
            ),
            StepView::CreateDepartment { req } => ApiClient::spec_create_department(cfg, req),
            StepView::CreateEmployee { req } => ApiClient::spec_create_employee(cfg, req),
            StepView::CreateSalaryGrade { req } => ApiClient::spec_create_salary_grade(cfg, req),
            StepView::RefreshDepartments => ApiClient::spec_get_departments(cfg),
            StepView::RefreshEmployees => ApiClient::spec_get_employees(cfg, false),
            StepView::RefreshSalaryGrades => ApiClient::spec_get_salary_grades(cfg),
        }
    }

    /// The request that performs the step.
    pub fn request(&self, api: &ApiClient) -> (res: ApiRequest)
        ensures
            res@ == Step::spec_request(self@, api@),
    {
        match self {
            Step::DeleteDepartment { id } => api.delete_department(id.as_str()),
            Step::DeleteEmployee { id } => api.delete_employee(id.as_str()),
            Step::DeleteSalaryGrade { id } => api.delete_salary_grade(id.as_str()),
            Step::DemoteHead { employee_id } => {
                let req = UpdateEmployeeRequest::role_only("Employee");
                api.update_employee(employee_id.as_str(), &req)
            },
            Step::PromoteHead { employee_id } => {
                let req = UpdateEmployeeRequest::role_only("DepartmentHead");
                api.update_employee(employee_id.as_str(), &req)
            },
            Step::UpdateDepartment { id, req } => api.update_department(id.as_str(), req),
            Step::UpdateEmployee { id, req } => api.update_employee(id.as_str(), req),
            Step::UpdateSalaryGrade { id, req } => api.update_salary_grade(id.as_str(), req),
            Step::CreateDepartment { req } => api.create_department(req),
            Step::CreateEmployee { req } => api.create_employee(req),
            Step::CreateSalaryGrade { req } => api.create_salary_grade(req),
            Step::RefreshDepartments => api.get_departments(),
            Step::RefreshEmployees => api.get_employees(false),
            Step::RefreshSalaryGrades => api.get_salary_grades(),
        }
    }

    /// What the log says of a step that failed, before the error's message.
    pub open spec fn spec_failure_context(step: StepView) -> Seq<char> {
        match step {
            StepView::DeleteDepartment { .. } => "Error deleting department: "@,
            StepView::DeleteEmployee { .. } => "Error deleting employee: "@,
            StepView::DeleteSalaryGrade { .. } => "Error deleting salary grade: "@,
            StepView::DemoteHead { .. } => "Error demoting old department head: "@,
            StepView::PromoteHead { .. } => "Error promoting new department head: "@,
            StepView::UpdateDepartment { .. } => "Error updating department: "@,
            StepView::UpdateEmployee { .. } => "Error updating employee: "@,
            StepView::UpdateSalaryGrade { .. } => "Error updating salary grade: "@,
            StepView::CreateDepartment { .. } => "Error creating department: "@,
            StepView::CreateEmployee { .. } => "Error creating employee: "@,
            StepView::CreateSalaryGrade { .. } => "Error creating salary grade: "@,
            StepView::RefreshDepartments => "Error fetching departments: "@,
            StepView::RefreshEmployees => "Error fetching employees: "@,
            StepView::RefreshSalaryGrades => "Error fetching salary grades: "@,
        }
    }

    /// The line that the log gets when a step has failed: what the step
    /// was about, then the error's message. Every failure leaves a line, a
    /// failed reload too.
    pub open spec fn spec_failure_notice(step: StepView, error: Seq<char>) -> Seq<char> {
        Step::spec_failure_context(step) + error
    }

    /// The line that the log gets when the step has failed with `error`.
    pub fn failure_notice(&self, error: &ApiError) -> (res: String)
        ensures
            res@ == Step::spec_failure_notice(self@, error@),
    {
        let context = match self {
            Step::DeleteDepartment { .. } => "Error deleting department: ",
            Step::DeleteEmployee { .. } => "Error deleting employee: ",
            Step::DeleteSalaryGrade { .. } => "Error deleting salary grade: ",
            Step::DemoteHead { .. } => "Error demoting old department head: ",
            Step::PromoteHead { .. } => "Error promoting new department head: ",
            Step::UpdateDepartment { .. } => "Error updating department: ",
            Step::UpdateEmployee { .. } => "Error updating employee: ",
            Step::UpdateSalaryGrade { .. } => "Error updating salary grade: ",
            Step::CreateDepartment { .. } => "Error creating department: ",
            Step::CreateEmployee { .. } => "Error creating employee: ",
            Step::CreateSalaryGrade { .. } => "Error creating salary grade: ",
            Step::RefreshDepartments => "Error fetching departments: ",
            Step::RefreshEmployees => "Error fetching employees: ",
            Step::RefreshSalaryGrades => "Error fetching salary grades: ",
        };
        concat2(context, error.message.as_str())
    }
}

/// What came back from a gateway call.
#[derive(Debug)]
pub enum Reply {
    /// The end of a call that sends no records back.
    Completed(Result<(), ApiError>),
    Departments(Result<Vec<Department>, ApiError>),
    Employees(Result<Vec<Employee>, ApiError>),
    SalaryGrades(Result<Vec<SalaryGrade>, ApiError>),
}

/// The view of a [`Reply`]: each text as its sequence of characters.
pub ghost enum ReplyView {
    Completed(Result<(), Seq<char>>),
    Departments(Result<Seq<DepartmentView>, Seq<char>>),
    Employees(Result<Seq<EmployeeView>, Seq<char>>),
    SalaryGrades(Result<Seq<SalaryGradeView>, Seq<char>>),
}

impl View for Reply {
    type V = ReplyView;

    open spec fn view(&self) -> ReplyView {
        match self {
            Reply::Completed(Ok(_)) => ReplyView::Completed(Ok(())),
            Reply::Completed(Err(e)) => ReplyView::Completed(Err(e@)),
            Reply::Departments(Ok(records)) => ReplyView::Departments(Ok(records.deep_view())),
            Reply::Departments(Err(e)) => ReplyView::Departments(Err(e@)),
            Reply::Employees(Ok(records)) => ReplyView::Employees(Ok(records.deep_view())),
            Reply::Employees(Err(e)) => ReplyView::Employees(Err(e@)),
            Reply::SalaryGrades(Ok(records)) => ReplyView::SalaryGrades(Ok(records.deep_view())),
            Reply::SalaryGrades(Err(e)) => ReplyView::SalaryGrades(Err(e@)),
        }
    }
}

impl Reply {
    /// The error of a reply, if the call failed.
    pub open spec fn spec_error(reply: ReplyView) -> Option<Seq<char>> {
        match reply {
            ReplyView::Completed(Err(e)) => Some(e),
            ReplyView::Departments(Err(e)) => Some(e),
            ReplyView::Employees(Err(e)) => Some(e),
            ReplyView::SalaryGrades(Err(e)) => Some(e),
            _ => None,
        }
    }

    /// The error of the reply, if the call failed.
    pub fn error(&self) -> (res: Option<&ApiError>)
        ensures
            res.deep_view() == Reply::spec_error(self@),
    {
        match self {
            Reply::Completed(Err(e)) => Some(e),
            Reply::Departments(Err(e)) => Some(e),
            Reply::Employees(Err(e)) => Some(e),
            Reply::SalaryGrades(Err(e)) => Some(e),
            _ => None,
        }
    }
}

/// A plan that is being carried out: its steps, and how many of them have
/// been answered. Every reply moves the run on by one step, whether the
/// call succeeded or failed, so that a plan of n steps ends after n
/// replies and its reloads are always reached.
#[derive(Debug)]
pub struct PlanRun {
    plan: Vec<Step>,
    answered: usize,
}

impl PlanRun {
    #[verifier::type_invariant]
    spec fn within_plan(self) -> bool {
        self.answered <= self.plan.len()
    }

    /// The steps of the plan.
    pub closed spec fn steps(self) -> Seq<StepView> {
        self.plan.deep_view()
    }

    /// How many steps have been answered.
    pub closed spec fn answered(self) -> nat {
        self.answered as nat
    }

    /// The run of a plan of which no step has been made yet.
    pub fn new(plan: Vec<Step>) -> (res: Self)
        ensures
            res.steps() == plan.deep_view(),
            res.answered() == 0,
    {
        PlanRun { plan, answered: 0 }
    }

    /// Whether every step has been answered.
    pub fn finished(&self) -> (res: bool)
        ensures
            res == (self.answered() >= self.steps().len()),
    {
        proof {
            use_type_invariant(self);
        }
        self.answered >= self.plan.len()
    }

    /// The step to make next: none once every step has been answered.
    pub fn current(&self) -> (res: Option<&Step>)
        ensures
            self.answered() <= self.steps().len(),
            res.deep_view() == if self.answered() < self.steps().len() {
                Some(self.steps()[self.answered() as int])
            } else {
                None
            },
    {
        proof {
            use_type_invariant(self);
        }
        if self.answered < self.plan.len() {
            Some(&self.plan[self.answered])
        } else {
            None
        }
    }

    /// Takes note of the reply to the current step and moves on to the
    /// next one, whatever the reply says. Returns the line for the log
    /// where the call failed. A run that is finished stays as it is.
    pub fn record(&mut self, reply: &Reply) -> (notice: Option<String>)
        ensures
            final(self).steps() == old(self).steps(),
            final(self).answered() == if old(self).answered() < old(self).steps().len() {
                old(self).answered() + 1
            } else {
                old(self).answered()
            },
            notice.deep_view() == if old(self).answered() < old(self).steps().len() {
                match Reply::spec_error(reply@) {
                    Some(e) => Some(
                        Step::spec_failure_notice(
                            old(self).steps()[old(self).answered() as int],
                            e,
                        ),
                    ),
                    None => None,
                }
            } else {
                None
            },
    {
        proof {
            use_type_invariant(&*self);
        }
        if self.answered < self.plan.len() {
            let notice = match reply.error() {
                Some(error) => Some(self.plan[self.answered].failure_notice(error)),
                None => None,
            };
            self.answered = self.answered + 1;
            notice
        } else {
            None
        }
    }
}

/// The steps that take the head's role from the employee who loses it:
/// one step where there was a head and the new head is another or none.
pub open spec fn spec_demotion(
    old_head_id: Option<Seq<char>>,
    new_head_id: Option<Seq<char>>,
) -> Seq<StepView> {
    match old_head_id {
        Some(old) => if new_head_id != Some(old) {
            seq![StepView::DemoteHead { employee_id: old }]
        } else {
            Seq::empty()
        },
        None => Seq::empty(),
    }
}

/// The steps that give the head's role to the employee who gains it: one
/// step where there is a new head and the old head was another or none.
pub open spec fn spec_promotion(
    old_head_id: Option<Seq<char>>,
    new_head_id: Option<Seq<char>>,
) -> Seq<StepView> {
    match new_head_id {
        Some(new) => if old_head_id != Some(new) {
            seq![StepView::PromoteHead { employee_id: new }]
        } else {
            Seq::empty()
        },
        None => Seq::empty(),
    }
}

fn differs(a: &String, b: &Option<String>) -> (res: bool)
    ensures
        res == (b.deep_view() != Some(a@)),
{
    match b {
        Some(value) => !(*value == *a),
        None => true,
    }
}

impl PersonnelApp {
    /// The payload of a confirmed update of a department: the name and the
    /// new head that the action carries. The head that is sent is so the
    /// head that is promoted, whatever the form holds by then.
    pub open spec fn spec_department_update(
        name: Seq<char>,
        new_head_id: Option<Seq<char>>,
    ) -> UpdateDepartmentRequestView {
        UpdateDepartmentRequestView { name: Some(name), head_id: new_head_id }
    }

    /// The payload of a confirmed creation of a department: the name that
    /// the action carries, and the head that the form holds.
    pub open spec fn spec_department_creation(
        app: PersonnelAppView,
        name: Seq<char>,
    ) -> CreateDepartmentRequestView {
        CreateDepartmentRequestView { name, head_id: spec_non_empty(app.dept_head_id) }
    }

    /// The payload that the employee form stands for when it updates:
    /// whether the employee is active and the hire date are left alone.
    pub open spec fn spec_employee_update(app: PersonnelAppView) -> UpdateEmployeeRequestView {
        UpdateEmployeeRequestView {
            first_name: Some(app.emp_first_name),
            last_name: Some(app.emp_last_name),
            email: Some(app.emp_email),
            role: Some(app.emp_role),
            active: None,
            department_id: spec_non_empty(app.emp_dept_id),
            manager_id: spec_non_empty(app.emp_manager_id),
            salary_grade_id: spec_non_empty(app.emp_salary_grade_id),
            hire_date: None,
        }
    }

    /// The payload that the employee form stands for when it creates.
    pub open spec fn spec_employee_creation(app: PersonnelAppView) -> CreateEmployeeRequestView {
        CreateEmployeeRequestView {
            first_name: app.emp_first_name,
            last_name: app.emp_last_name,
            email: app.emp_email,
            department_id: spec_non_empty(app.emp_dept_id),
            manager_id: spec_non_empty(app.emp_manager_id),
            role: Some(app.emp_role),
            salary_grade_id: spec_non_empty(app.emp_salary_grade_id),
            hire_date: None,
        }
    }

    /// The payload of a confirmed update of a salary grade: the code that
    /// the action carries, and the description that the form holds.
    /// `salary` is the amount that the salary field holds, `None` where it
    /// holds no number; the payload then carries zero.
    pub open spec fn spec_salary_grade_update(
        app: PersonnelAppView,
        code: Seq<char>,
        salary: Option<Salary>,
    ) -> UpdateSalaryGradeRequestView {
        UpdateSalaryGradeRequestView {
            code: Some(code),
            base_salary: Some(spec_or_zero(salary)),
            description: spec_non_empty(app.grade_desc),
        }
    }

    /// The payload of a confirmed creation of a salary grade: the code that
    /// the action carries, and the description that the form holds.
    pub open spec fn spec_salary_grade_creation(
        app: PersonnelAppView,
        code: Seq<char>,
        salary: Option<Salary>,
    ) -> CreateSalaryGradeRequestView {
        CreateSalaryGradeRequestView {
            code,
            base_salary: spec_or_zero(salary),
            description: spec_non_empty(app.grade_desc),
        }
    }

    /// The plan of a confirmed action: the calls that carry it out, then
    /// the reload of every snapshot that the action can touch. A payload
    /// holds what the action carries, and takes from the form what the
    /// action does not carry. A deletion reloads the snapshot of the
    /// deleted record and the snapshot of the records that refer to it or
    /// that it is referred to by: employees refer to departments and to
    /// salary grades, and departments to their heads.
    pub open spec fn spec_plan(
        app: PersonnelAppView,
        action: ConfirmActionView,
        salary: Option<Salary>,
    ) -> Seq<StepView> {
        match action {
            ConfirmActionView::DeleteDepartment { id, .. } => seq![
                StepView::DeleteDepartment { id },
                StepView::RefreshDepartments,
                StepView::RefreshEmployees,
            ],
            ConfirmActionView::DeleteEmployee { id, .. } => seq![
                StepView::DeleteEmployee { id },
                StepView::RefreshEmployees,
                StepView::RefreshDepartments,
            ],
            ConfirmActionView::DeleteSalaryGrade { id, .. } => seq![
                StepView::DeleteSalaryGrade { id },
                StepView::RefreshSalaryGrades,
                StepView::RefreshEmployees,
            ],
            ConfirmActionView::UpdateDepartment { id, name, old_head_id, new_head_id, .. } => {
                spec_demotion(old_head_id, new_head_id) + spec_promotion(old_head_id, new_head_id)
                    + seq![
                    StepView::UpdateDepartment {
                        id,
                        req: PersonnelApp::spec_department_update(name, new_head_id),
                    },
                    StepView::RefreshDepartments,
                    StepView::RefreshEmployees,
                ]
            },
            ConfirmActionView::UpdateEmployee { id, .. } => seq![
                StepView::UpdateEmployee { id, req: PersonnelApp::spec_employee_update(app) },
                StepView::RefreshEmployees,
            ],
            ConfirmActionView::UpdateSalaryGrade { id, code } => seq![
                StepView::UpdateSalaryGrade {
                    id,
                    req: PersonnelApp::spec_salary_grade_update(app, code, salary),
                },
                StepView::RefreshSalaryGrades,
            ],
            ConfirmActionView::CreateDepartment { name } => seq![
                StepView::CreateDepartment {
                    req: PersonnelApp::spec_department_creation(app, name),
                },
                StepView::RefreshDepartments,
            ],
            ConfirmActionView::CreateEmployee { .. } => seq![
                StepView::CreateEmployee { req: PersonnelApp::spec_employee_creation(app) },
                StepView::RefreshEmployees,
            ],
            ConfirmActionView::CreateSalaryGrade { code } => seq![
                StepView::CreateSalaryGrade {
                    req: PersonnelApp::spec_salary_grade_creation(app, code, salary),
                },
                StepView::RefreshSalaryGrades,
            ],
        }
    }

    /// The state once an action is under way: an update drops the selection
    /// and empties its form, a creation empties its form, a deletion leaves
    /// the state as it is.
    pub open spec fn spec_staged_cleared(
        app: PersonnelAppView,
        action: ConfirmActionView,
    ) -> PersonnelAppView {
        match action {
            ConfirmActionView::UpdateDepartment { .. } => PersonnelAppView {
                selected_dept: None,
                ..PersonnelApp::spec_clear_dept_form(app)
            },
            ConfirmActionView::UpdateEmployee { .. } => PersonnelAppView {
                selected_emp: None,
                ..PersonnelApp::spec_clear_emp_form(app)
            },
            ConfirmActionView::UpdateSalaryGrade { .. } => PersonnelAppView {
                selected_grade: None,
                ..PersonnelApp::spec_clear_grade_form(app)
            },
            ConfirmActionView::CreateDepartment { .. } => PersonnelApp::spec_clear_dept_form(app),
            ConfirmActionView::CreateEmployee { .. } => PersonnelApp::spec_clear_emp_form(app),
            ConfirmActionView::CreateSalaryGrade { .. } => PersonnelApp::spec_clear_grade_form(
                app,
            ),
            _ => app,
        }
    }

    fn department_creation(&self, name: String) -> (res: CreateDepartmentRequest)
        ensures
            res@ == PersonnelApp::spec_department_creation(self@, name@),
    {
        CreateDepartmentRequest { name, head_id: non_empty(&self.dept_head_id) }
    }

    fn employee_update(&self) -> (res: UpdateEmployeeRequest)
        ensures
            res@ == PersonnelApp::spec_employee_update(self@),
    {
        UpdateEmployeeRequest {
            first_name: Some(self.emp_first_name.clone()),
            last_name: Some(self.emp_last_name.clone()),
            email: Some(self.emp_email.clone()),
            role: Some(self.emp_role.clone()),
            active: None,
            department_id: non_empty(&self.emp_dept_id),
            manager_id: non_empty(&self.emp_manager_id),
            salary_grade_id: non_empty(&self.emp_salary_grade_id),
            hire_date: None,
        }
    }

    fn employee_creation(&self) -> (res: CreateEmployeeRequest)
        ensures
            res@ == PersonnelApp::spec_employee_creation(self@),
    {
        CreateEmployeeRequest {
            first_name: self.emp_first_name.clone(),
            last_name: self.emp_last_name.clone(),
            email: self.emp_email.clone(),
            department_id: non_empty(&self.emp_dept_id),
            manager_id: non_empty(&self.emp_manager_id),
            role: Some(self.emp_role.clone()),
            salary_grade_id: non_empty(&self.emp_salary_grade_id),
            hire_date: None,
        }
    }

    fn salary_grade_update(&self, code: String, salary: Option<Salary>) -> (res:
        UpdateSalaryGradeRequest)
        ensures
            res@ == PersonnelApp::spec_salary_grade_update(self@, code@, salary),
    {
        UpdateSalaryGradeRequest {
            code: Some(code),
            base_salary: Some(Salary::or_zero(salary)),
            description: non_empty(&self.grade_desc),
        }
    }

    fn salary_grade_creation(&self, code: String, salary: Option<Salary>) -> (res:
        CreateSalaryGradeRequest)
        ensures
            res@ == PersonnelApp::spec_salary_grade_creation(self@, code@, salary),
    {
        CreateSalaryGradeRequest {
            code,
            base_salary: Salary::or_zero(salary),
            description: non_empty(&self.grade_desc),
        }
    }

    /// Starts a confirmed action: returns its plan and clears the form and
    /// selection that staged it. The calls are those of the action that
    /// was confirmed: what the action carries goes into the payload as the
    /// action carries it. `salary` is the amount that the salary field of
    /// the salary grade form holds, `None` where it holds no number.
    pub fn execute_confirmed_action(&mut self, action: ConfirmAction, salary: Option<Salary>) -> (plan:
        Vec<Step>)
        ensures
            plan.deep_view() == PersonnelApp::spec_plan(old(self)@, action@, salary),
            final(self)@ == PersonnelApp::spec_staged_cleared(old(self)@, action@),
    {
        let mut plan: Vec<Step> = Vec::new();
        assert(plan.deep_view() =~= Seq::empty());
        match action {
            ConfirmAction::DeleteDepartment { id, .. } => {
                push_view(&mut plan, Step::DeleteDepartment { id });
                push_view(&mut plan, Step::RefreshDepartments);
                push_view(&mut plan, Step::RefreshEmployees);
            },
            ConfirmAction::DeleteEmployee { id, .. } => {
                push_view(&mut plan, Step::DeleteEmployee { id });
                push_view(&mut plan, Step::RefreshEmployees);
                push_view(&mut plan, Step::RefreshDepartments);
            },
            ConfirmAction::DeleteSalaryGrade { id, .. } => {
                push_view(&mut plan, Step::DeleteSalaryGrade { id });
                push_view(&mut plan, Step::RefreshSalaryGrades);
                push_view(&mut plan, Step::RefreshEmployees);
            },
            ConfirmAction::UpdateDepartment { id, name, old_head_id, new_head_id, .. } => {
                match &old_head_id {
                    Some(old) => {
                        if differs(old, &new_head_id) {
                            push_view(&mut plan, Step::DemoteHead { employee_id: old.clone() });
                        }
                    },
                    None => {},
                }
                assert(plan.deep_view() =~= spec_demotion(
                    old_head_id.deep_view(),
                    new_head_id.deep_view(),
                ));
                match &new_head_id {
                    Some(new) => {
                        if differs(new, &old_head_id) {
                            push_view(&mut plan, Step::PromoteHead { employee_id: new.clone() });
                        }
                    },
                    None => {},
                }
                assert(plan.deep_view() =~= spec_demotion(
                    old_head_id.deep_view(),
                    new_head_id.deep_view(),
                ) + spec_promotion(old_head_id.deep_view(), new_head_id.deep_view()));
                let req = UpdateDepartmentRequest { name: Some(name), head_id: new_head_id };
                push_view(&mut plan, Step::UpdateDepartment { id, req });
                push_view(&mut plan, Step::RefreshDepartments);
                push_view(&mut plan, Step::RefreshEmployees);
                self.selected_dept = None;
                self.clear_dept_form();
            },
            ConfirmAction::UpdateEmployee { id, .. } => {
                let req = self.employee_update();
                push_view(&mut plan, Step::UpdateEmployee { id, req });
                push_view(&mut plan, Step::RefreshEmployees);
                self.selected_emp = None;
                self.clear_emp_form();
            },
            ConfirmAction::UpdateSalaryGrade { id, code } => {
                let req = self.salary_grade_update(code, salary);
                push_view(&mut plan, Step::UpdateSalaryGrade { id, req });
                push_view(&mut plan, Step::RefreshSalaryGrades);
                self.selected_grade = None;
                self.clear_grade_form();
            },
            ConfirmAction::CreateDepartment { name } => {
                let req = self.department_creation(name);
                push_view(&mut plan, Step::CreateDepartment { req });
                push_view(&mut plan, Step::RefreshDepartments);
                self.clear_dept_form();
            },
            ConfirmAction::CreateEmployee { .. } => {
                let req = self.employee_creation();
                push_view(&mut plan, Step::CreateEmployee { req });
                push_view(&mut plan, Step::RefreshEmployees);
                self.clear_emp_form();
            },
            ConfirmAction::CreateSalaryGrade { code } => {
                let req = self.salary_grade_creation(code, salary);
                push_view(&mut plan, Step::CreateSalaryGrade { req });
                push_view(&mut plan, Step::RefreshSalaryGrades);
                self.clear_grade_form();
            },
        }
        assert(plan.deep_view() =~= PersonnelApp::spec_plan(old(self)@, action@, salary));
        plan
    }

    /// The plan that fills the three snapshots when the client starts.
    pub open spec fn spec_initial_load() -> Seq<StepView> {
        seq![
            StepView::RefreshDepartments,
            StepView::RefreshEmployees,
            StepView::RefreshSalaryGrades,
        ]
    }

    /// The plan that fills the three snapshots when the client starts.
    pub fn initial_load(&self) -> (plan: Vec<Step>)
        ensures
            plan.deep_view() == PersonnelApp::spec_initial_load(),
    {
        let mut plan: Vec<Step> = Vec::new();
        assert(plan.deep_view() =~= Seq::empty());
        push_view(&mut plan, Step::RefreshDepartments);
        push_view(&mut plan, Step::RefreshEmployees);
        push_view(&mut plan, Step::RefreshSalaryGrades);
        assert(plan.deep_view() =~= PersonnelApp::spec_initial_load());
        plan
    }

    /// The call that fetches the departments anew.
    pub fn refresh_departments(&self) -> (res: Step)
        ensures
            res@ == StepView::RefreshDepartments,
    {
        Step::RefreshDepartments
    }

    /// The call that fetches the employees anew.
    pub fn refresh_employees(&self) -> (res: Step)
        ensures
            res@ == StepView::RefreshEmployees,
    {
        Step::RefreshEmployees
    }

    /// The call that fetches the salary grades anew.
    pub fn refresh_salary_grades(&self) -> (res: Step)
        ensures
            res@ == StepView::RefreshSalaryGrades,
    {
        Step::RefreshSalaryGrades
    }

    /// The state after a reply: records that were fetched replace their
    /// snapshot as a whole; any other reply, a failed fetch too, leaves the
    /// state as it is.
    pub open spec fn spec_receive(app: PersonnelAppView, reply: ReplyView) -> PersonnelAppView {
        match reply {
            ReplyView::Departments(Ok(records)) => PersonnelAppView { departments: records, ..app },
            ReplyView::Employees(Ok(records)) => PersonnelAppView { employees: records, ..app },
            ReplyView::SalaryGrades(Ok(records)) => PersonnelAppView {
                salary_grades: records,
                ..app
            },
            _ => app,
        }
    }

    /// Takes in the reply to a gateway call.
    pub fn receive(&mut self, reply: Reply)
        ensures
            final(self)@ == PersonnelApp::spec_receive(old(self)@, reply@),
    {
        match reply {
            Reply::Departments(Ok(records)) => {
                self.departments = records;
            },
            Reply::Employees(Ok(records)) => {
                self.employees = records;
            },
            Reply::SalaryGrades(Ok(records)) => {
                self.salary_grades = records;
            },
            _ => {},
        }
    }
}

} // verus!
