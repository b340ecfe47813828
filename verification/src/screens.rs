//! What the three tabs show, and what a click on a card does.
//!
//! A screen is described, not drawn: each `show_*` function returns the
//! texts of the cards in the order of the snapshot, and the caller renders
//! them. Salaries are written by the caller: where a screen shows amounts
//! it takes `amounts`, the amount of each salary grade of the snapshot, in
//! the snapshot's order, as the text to show.

use vstd::prelude::*;
use crate::app::{PersonnelApp, PersonnelAppView};
use crate::cache::{
    count_in_department, count_with_grade, department_name, employee_name, find_salary_grade,
    spec_count_in_department, spec_count_with_grade, spec_department_name, spec_employee_name,
    spec_find_salary_grade,
};
use crate::dialogs::{ConfirmAction, ConfirmActionView, EditDialog, EditDialogView};
use crate::models::{DepartmentView, EmployeeView, SalaryGradeView};
use crate::text::{
    concat2, concat3, decimal, decimal_digits, full_name, or_text, push_view, spec_full_name,
    spec_or_text,
};

verus! {

/// The card of one department.
#[derive(Debug)]
pub struct DepartmentCard {
    pub id: String,
    pub name: String,
    /// Who heads the department.
    pub head_line: String,
    /// How many employees belong to it.
    pub count_line: String,
    pub employee_count: usize,
}

/// The view of a [`DepartmentCard`]: each text as its sequence of characters.
pub ghost struct DepartmentCardView {
    pub id: Seq<char>,
    pub name: Seq<char>,
    pub head_line: Seq<char>,
    pub count_line: Seq<char>,
    pub employee_count: nat,
}

impl View for DepartmentCard {
    type V = DepartmentCardView;

    open spec fn view(&self) -> DepartmentCardView {
        DepartmentCardView {
            id: self.id@,
            name: self.name@,
            head_line: self.head_line@,
            count_line: self.count_line@,
            employee_count: self.employee_count as nat,
        }
    }
}

impl DeepView for DepartmentCard {
    type V = DepartmentCardView;

    open spec fn deep_view(&self) -> DepartmentCardView {
        self@
    }
}

/// The card of one employee.
#[derive(Debug)]
pub struct EmployeeCard {
    pub id: String,
    pub name: String,
    pub email: String,
    pub role_line: String,
    pub dept_line: String,
    pub grade_line: String,
}

/// The view of a [`EmployeeCard`]: each text as its sequence of characters.
pub ghost struct EmployeeCardView {
    pub id: Seq<char>,
    pub name: Seq<char>,
    pub email: Seq<char>,
    pub role_line: Seq<char>,
    pub dept_line: Seq<char>,
    pub grade_line: Seq<char>,
}

impl View for EmployeeCard {
    type V = EmployeeCardView;

    open spec fn view(&self) -> EmployeeCardView {
        EmployeeCardView {
            id: self.id@,
            name: self.name@,
            email: self.email@,
            role_line: self.role_line@,
            dept_line: self.dept_line@,
            grade_line: self.grade_line@,
        }
    }
}

impl DeepView for EmployeeCard {
    type V = EmployeeCardView;

    open spec fn deep_view(&self) -> EmployeeCardView {
        self@
    }
}

/// The card of one salary grade.
#[derive(Debug)]
pub struct SalaryGradeCard {
    pub id: String,
    pub code: String,
    pub amount_line: String,
    pub description: String,
    /// How many employees hold the grade.
    pub count_line: String,
    pub employee_count: usize,
}

/// The view of a [`SalaryGradeCard`]: each text as its sequence of characters.
pub ghost struct SalaryGradeCardView {
    pub id: Seq<char>,
    pub code: Seq<char>,
    pub amount_line: Seq<char>,
    pub description: Seq<char>,
    pub count_line: Seq<char>,
    pub employee_count: nat,
}

impl View for SalaryGradeCard {
    type V = SalaryGradeCardView;

    open spec fn view(&self) -> SalaryGradeCardView {
        SalaryGradeCardView {
            id: self.id@,
            code: self.code@,
            amount_line: self.amount_line@,
            description: self.description@,
            count_line: self.count_line@,
            employee_count: self.employee_count as nat,
        }
    }
}

impl DeepView for SalaryGradeCard {
    type V = SalaryGradeCardView;

    open spec fn deep_view(&self) -> SalaryGradeCardView {
        self@
    }
}

/// What a tab shows: a notice where the snapshot is empty, and one card
/// for each record.
#[derive(Debug)]
pub struct Screen<Card> {
    pub empty_notice: Option<String>,
    pub cards: Vec<Card>,
}

/// The view of a [`Screen`]: each text as its sequence of characters.
pub ghost struct ScreenView<CardView> {
    pub empty_notice: Option<Seq<char>>,
    pub cards: Seq<CardView>,
}

impl<Card: DeepView> View for Screen<Card> {
    type V = ScreenView<Card::V>;

    open spec fn view(&self) -> ScreenView<Card::V> {
        ScreenView { empty_notice: self.empty_notice.deep_view(), cards: self.cards.deep_view() }
    }
}

/// The notice of a tab whose snapshot holds no record: an empty snapshot is
/// shown as such, and is no error.
pub open spec fn spec_empty_notice(records: nat, notice: Seq<char>) -> Option<Seq<char>> {
    if records == 0 {
        Some(notice)
    } else {
        None
    }
}

fn empty_notice(records: usize, notice: &str) -> (res: Option<String>)
    ensures
        res.deep_view() == spec_empty_notice(records as nat, notice@),
{
    if records == 0 {
        Some(String::from_str(notice))
    } else {
        None
    }
}

/// The amount of the salary grade at position `i`, or nothing where
/// `amounts` does not reach that far.
pub open spec fn spec_amount_at(amounts: Seq<Seq<char>>, i: int) -> Seq<char> {
    if 0 <= i < amounts.len() {
        amounts[i]
    } else {
        Seq::empty()
    }
}

/// The amount of the salary grade at position `i`, or nothing where
/// `amounts` does not reach that far.
pub fn amount_at(amounts: &Vec<String>, i: usize) -> (res: String)
    ensures
        res@ == spec_amount_at(amounts.deep_view(), i as int),
{
    if i < amounts.len() {
        amounts[i].clone()
    } else {
        String::new()
    }
}

/// A salary grade as one line: its code and its amount.
pub open spec fn spec_grade_label(code: Seq<char>, amount: Seq<char>) -> Seq<char> {
    code + " - $"@ + amount
}

/// A salary grade as one line: its code and its amount.
pub fn grade_label(code: &str, amount: &str) -> (res: String)
    ensures
        res@ == spec_grade_label(code@, amount@),
{
    concat3(code, " - $", amount)
}

/// The line of the salary grade that `id` names: nothing where `id` is
/// absent or names no salary grade of the snapshot.
pub open spec fn spec_grade_label_of(
    grades: Seq<SalaryGradeView>,
    amounts: Seq<Seq<char>>,
    id: Option<Seq<char>>,
) -> Option<Seq<char>> {
    match id {
        None => None,
        Some(id) => match spec_find_salary_grade(grades, id) {
            Some(i) => Some(spec_grade_label(grades[i].code, spec_amount_at(amounts, i))),
            None => None,
        },
    }
}

/// How a card states the number of employees that hold a salary grade.
pub open spec fn spec_holders_line(count: nat) -> Seq<char> {
    if count == 1 {
        decimal_digits(count) + " employee"@
    } else {
        decimal_digits(count) + " employees"@
    }
}

/// The card of a department.
pub open spec fn spec_department_card(
    d: DepartmentView,
    employees: Seq<EmployeeView>,
) -> DepartmentCardView {
    let count = spec_count_in_department(employees, d.id);
    DepartmentCardView {
        id: d.id,
        name: d.name,
        head_line: "👔 Head: "@ + spec_or_text(
            spec_employee_name(employees, d.head_id),
            "No head assigned"@,
        ),
        count_line: "👥 "@ + decimal_digits(count) + " employee(s)"@,
        employee_count: count,
    }
}

/// The card of an employee.
pub open spec fn spec_employee_card(
    e: EmployeeView,
    departments: Seq<DepartmentView>,
    grades: Seq<SalaryGradeView>,
    amounts: Seq<Seq<char>>,
) -> EmployeeCardView {
    EmployeeCardView {
        id: e.id,
        name: spec_full_name(e.first_name, e.last_name),
        email: e.email,
        role_line: "Role: "@ + e.role,
        dept_line: "Dept: "@ + spec_or_text(
            spec_department_name(departments, e.department_id),
            "No department"@,
        ),
        grade_line: "Grade: "@ + spec_or_text(
            spec_grade_label_of(grades, amounts, e.salary_grade_id),
            "No grade"@,
        ),
    }
}

/// The card of a salary grade, whose amount reads `amount`.
pub open spec fn spec_salary_grade_card(
    g: SalaryGradeView,
    amount: Seq<char>,
    employees: Seq<EmployeeView>,
) -> SalaryGradeCardView {
    let count = spec_count_with_grade(employees, g.id);
    SalaryGradeCardView {
        id: g.id,
        code: g.code,
        amount_line: "$"@ + amount,
        description: spec_or_text(g.description, "No description"@),
        count_line: spec_holders_line(count),
        employee_count: count,
    }
}

impl PersonnelApp {
    /// What the departments tab shows.
    pub open spec fn spec_show_departments(app: PersonnelAppView) -> ScreenView<
        DepartmentCardView,
    > {
        ScreenView {
            empty_notice: spec_empty_notice(app.departments.len(), "No departments yet"@),
            cards: Seq::new(
                app.departments.len(),
                |i: int| spec_department_card(app.departments[i], app.employees),
            ),
        }
    }

    /// What the employees tab shows.
    pub open spec fn spec_show_employees(
        app: PersonnelAppView,
        amounts: Seq<Seq<char>>,
    ) -> ScreenView<EmployeeCardView> {
        ScreenView {
            empty_notice: spec_empty_notice(app.employees.len(), "No employees yet"@),
            cards: Seq::new(
                app.employees.len(),
                |i: int|
                    spec_employee_card(
                        app.employees[i],
                        app.departments,
                        app.salary_grades,
                        amounts,
                    ),
            ),
        }
    }

    /// What the salary grades tab shows.
    pub open spec fn spec_show_salary_grades(
        app: PersonnelAppView,
        amounts: Seq<Seq<char>>,
    ) -> ScreenView<SalaryGradeCardView> {
        ScreenView {
            empty_notice: spec_empty_notice(app.salary_grades.len(), "No salary grades yet"@),
            cards: Seq::new(
                app.salary_grades.len(),
                |i: int|
                    spec_salary_grade_card(
                        app.salary_grades[i],
                        spec_amount_at(amounts, i),
                        app.employees,
                    ),
            ),
        }
    }

    fn department_card(&self, i: usize) -> (res: DepartmentCard)
        requires
            i < self.departments.len(),
        ensures
            res@ == spec_department_card(self@.departments[i as int], self@.employees),
    {
        let d = &self.departments[i];
        let count = count_in_department(&self.employees, &d.id);
        let head = or_text(employee_name(&self.employees, &d.head_id), "No head assigned");
        let number = decimal(count);
        DepartmentCard {
            id: d.id.clone(),
            name: d.name.clone(),
            head_line: concat2("👔 Head: ", head.as_str()),
            count_line: concat3("👥 ", number.as_str(), " employee(s)"),
            employee_count: count,
        }
    }

    /// What the departments tab shows: for each department of the snapshot
    /// its name, its head and the number of its employees.
    pub fn show_departments(&self) -> (res: Screen<DepartmentCard>)
        ensures
            res@ == PersonnelApp::spec_show_departments(self@),
    {
        let mut cards: Vec<DepartmentCard> = Vec::new();
        let mut i: usize = 0;
        assert(cards.deep_view() =~= Seq::new(
            0,
            |j: int| spec_department_card(self@.departments[j], self@.employees),
        ));
        while i < self.departments.len()
            invariant
                i <= self.departments.len(),
                cards.deep_view() == Seq::new(
                    i as nat,
                    |j: int| spec_department_card(self@.departments[j], self@.employees),
                ),
            decreases self.departments.len() - i,
        {
            let card = self.department_card(i);
            push_view(&mut cards, card);
            i += 1;
            assert(cards.deep_view() =~= Seq::new(
                i as nat,
                |j: int| spec_department_card(self@.departments[j], self@.employees),
            ));
        }
        Screen { empty_notice: empty_notice(self.departments.len(), "No departments yet"), cards }
    }

    fn grade_label_of(&self, amounts: &Vec<String>, id: &Option<String>) -> (res: Option<String>)
        ensures
            res.deep_view() == spec_grade_label_of(
                self@.salary_grades,
                amounts.deep_view(),
                id.deep_view(),
            ),
    {
        match id {
            None => None,
            Some(id) => match find_salary_grade(&self.salary_grades, id) {
                Some(i) => {
                    let amount = amount_at(amounts, i);
                    Some(grade_label(self.salary_grades[i].code.as_str(), amount.as_str()))
                },
                None => None,
            },
        }
    }

    fn employee_card(&self, i: usize, amounts: &Vec<String>) -> (res: EmployeeCard)
        requires
            i < self.employees.len(),
        ensures
            res@ == spec_employee_card(
                self@.employees[i as int],
                self@.departments,
                self@.salary_grades,
                amounts.deep_view(),
            ),
    {
        let e = &self.employees[i];
        let dept = or_text(department_name(&self.departments, &e.department_id), "No department");
        let grade = or_text(self.grade_label_of(amounts, &e.salary_grade_id), "No grade");
        EmployeeCard {
            id: e.id.clone(),
            name: full_name(e.first_name.as_str(), e.last_name.as_str()),
            email: e.email.clone(),
            role_line: concat2("Role: ", e.role.as_str()),
            dept_line: concat2("Dept: ", dept.as_str()),
            grade_line: concat2("Grade: ", grade.as_str()),
        }
    }

    /// What the employees tab shows: for each employee of the snapshot the
    /// name, the address, the role, the department and the salary grade.
    pub fn show_employees(&self, amounts: &Vec<String>) -> (res: Screen<EmployeeCard>)
        ensures
            res@ == PersonnelApp::spec_show_employees(self@, amounts.deep_view()),
    {
        let mut cards: Vec<EmployeeCard> = Vec::new();
        let mut i: usize = 0;
        assert(cards.deep_view() =~= Seq::new(
            0,
            |j: int|
                spec_employee_card(
                    self@.employees[j],
                    self@.departments,
                    self@.salary_grades,
                    amounts.deep_view(),
                ),
        ));
        while i < self.employees.len()
            invariant
                i <= self.employees.len(),
                cards.deep_view() == Seq::new(
                    i as nat,
                    |j: int|
                        spec_employee_card(
                            self@.employees[j],
                            self@.departments,
                            self@.salary_grades,
                            amounts.deep_view(),
                        ),
                ),
            decreases self.employees.len() - i,
        {
            let card = self.employee_card(i, amounts);
            push_view(&mut cards, card);
            i += 1;
            assert(cards.deep_view() =~= Seq::new(
                i as nat,
                |j: int|
                    spec_employee_card(
                        self@.employees[j],
                        self@.departments,
                        self@.salary_grades,
                        amounts.deep_view(),
                    ),
            ));
        }
        Screen { empty_notice: empty_notice(self.employees.len(), "No employees yet"), cards }
    }

    fn salary_grade_card(&self, i: usize, amounts: &Vec<String>) -> (res: SalaryGradeCard)
        requires
            i < self.salary_grades.len(),
        ensures
            res@ == spec_salary_grade_card(
                self@.salary_grades[i as int],
                spec_amount_at(amounts.deep_view(), i as int),
                self@.employees,
            ),
    {
        let g = &self.salary_grades[i];
        let count = count_with_grade(&self.employees, &g.id);
        let amount = amount_at(amounts, i);
        let number = decimal(count);
        SalaryGradeCard {
            id: g.id.clone(),
            code: g.code.clone(),
            amount_line: concat2("$", amount.as_str()),
            description: or_text(g.description.clone(), "No description"),
            count_line: if count == 1 {
                concat2(number.as_str(), " employee")
            } else {
                concat2(number.as_str(), " employees")
            },
            employee_count: count,
        }
    }

    /// What the salary grades tab shows: for each salary grade of the
    /// snapshot its code, amount and description and the number of the
    /// employees that hold it.
    pub fn show_salary_grades(&self, amounts: &Vec<String>) -> (res: Screen<SalaryGradeCard>)
        ensures
            res@ == PersonnelApp::spec_show_salary_grades(self@, amounts.deep_view()),
    {
        let mut cards: Vec<SalaryGradeCard> = Vec::new();
        let mut i: usize = 0;
        assert(cards.deep_view() =~= Seq::new(
            0,
            |j: int|
                spec_salary_grade_card(
                    self@.salary_grades[j],
                    spec_amount_at(amounts.deep_view(), j),
                    self@.employees,
                ),
        ));
        while i < self.salary_grades.len()
            invariant
                i <= self.salary_grades.len(),
                cards.deep_view() == Seq::new(
                    i as nat,
                    |j: int|
                        spec_salary_grade_card(
                            self@.salary_grades[j],
                            spec_amount_at(amounts.deep_view(), j),
                            self@.employees,
                        ),
                ),
            decreases self.salary_grades.len() - i,
        {
            let card = self.salary_grade_card(i, amounts);
            push_view(&mut cards, card);
            i += 1;
            assert(cards.deep_view() =~= Seq::new(
                i as nat,
                |j: int|
                    spec_salary_grade_card(
                        self@.salary_grades[j],
                        spec_amount_at(amounts.deep_view(), j),
                        self@.employees,
                    ),
            ));
        }
        Screen {
            empty_notice: empty_notice(self.salary_grades.len(), "No salary grades yet"),
            cards,
        }
    }

    /// The state after a click on a department's delete button. The action
    /// that then waits for confirmation carries the number of the
    /// department's employees, counted in the snapshot. A position beyond
    /// the snapshot changes nothing.
    pub open spec fn spec_request_delete_department(
        app: PersonnelAppView,
        index: int,
    ) -> PersonnelAppView {
        if 0 <= index < app.departments.len() {
            let d = app.departments[index];
            PersonnelAppView {
                confirm_dialog: Some(
                    ConfirmActionView::DeleteDepartment {
                        id: d.id,
                        name: d.name,
                        employee_count: spec_count_in_department(app.employees, d.id) as usize,
                    },
                ),
                ..app
            }
        } else {
            app
        }
    }

    /// Handles a click on the delete button of the department at `index`.
    pub fn request_delete_department(&mut self, index: usize)
        ensures
            final(self)@ == PersonnelApp::spec_request_delete_department(old(self)@, index as int),
    {
        if index < self.departments.len() {
            let d = &self.departments[index];
            let employee_count = count_in_department(&self.employees, &d.id);
            let action = ConfirmAction::DeleteDepartment {
                id: d.id.clone(),
                name: d.name.clone(),
                employee_count,
            };
            self.confirm_dialog = Some(action);
        }
    }

    /// The state after a click on a department's edit button: the form
    /// holds the department's name and head, and the dialog remembers the
    /// head that the department had.
    pub open spec fn spec_start_edit_department(app: PersonnelAppView, index: int) -> PersonnelAppView {
        if 0 <= index < app.departments.len() {
            let d = app.departments[index];
            PersonnelAppView {
                dept_name: d.name,
                dept_head_id: spec_or_text(d.head_id, Seq::empty()),
                edit_dialog: Some(EditDialogView::EditDepartment { id: d.id, old_head_id: d.head_id }),
                ..app
            }
        } else {
            app
        }
    }

    /// Handles a click on the edit button of the department at `index`.
    pub fn start_edit_department(&mut self, index: usize)
        ensures
            final(self)@ == PersonnelApp::spec_start_edit_department(old(self)@, index as int),
    {
        if index < self.departments.len() {
            let d = &self.departments[index];
            let name = d.name.clone();
            let head = or_text(d.head_id.clone(), "");
            let dialog = EditDialog::EditDepartment {
                id: d.id.clone(),
                old_head_id: d.head_id.clone(),
            };
            proof {
                reveal_strlit("");
                assert(""@ =~= Seq::<char>::empty());
            }
            self.dept_name = name;
            self.dept_head_id = head;
            self.edit_dialog = Some(dialog);
        }
    }

    /// Opens the form that creates a department, empty.
    pub fn start_create_department(&mut self)
        ensures
            final(self)@ == (PersonnelAppView {
                edit_dialog: Some(EditDialogView::CreateDepartment),
                ..PersonnelApp::spec_clear_dept_form(old(self)@)
            }),
    {
        self.clear_dept_form();
        self.edit_dialog = Some(EditDialog::CreateDepartment);
    }

    /// The state after a click on an employee's delete button.
    pub open spec fn spec_request_delete_employee(
        app: PersonnelAppView,
        index: int,
    ) -> PersonnelAppView {
        if 0 <= index < app.employees.len() {
            let e = app.employees[index];
            PersonnelAppView {
                confirm_dialog: Some(
                    ConfirmActionView::DeleteEmployee {
                        id: e.id,
                        name: spec_full_name(e.first_name, e.last_name),
                    },
                ),
                ..app
            }
        } else {
            app
        }
    }

    /// Handles a click on the delete button of the employee at `index`.
    pub fn request_delete_employee(&mut self, index: usize)
        ensures
            final(self)@ == PersonnelApp::spec_request_delete_employee(old(self)@, index as int),
    {
        if index < self.employees.len() {
            let e = &self.employees[index];
            let action = ConfirmAction::DeleteEmployee {
                id: e.id.clone(),
                name: full_name(e.first_name.as_str(), e.last_name.as_str()),
            };
            self.confirm_dialog = Some(action);
        }
    }

    /// The state after a click on an employee's edit button: the form holds
    /// what the record holds, an absent reference as an empty field.
    pub open spec fn spec_start_edit_employee(app: PersonnelAppView, index: int) -> PersonnelAppView {
        if 0 <= index < app.employees.len() {
            let e = app.employees[index];
            PersonnelAppView {
                emp_first_name: e.first_name,
                emp_last_name: e.last_name,
                emp_email: e.email,
                emp_role: e.role,
                emp_dept_id: spec_or_text(e.department_id, Seq::empty()),
                emp_manager_id: spec_or_text(e.manager_id, Seq::empty()),
                emp_salary_grade_id: spec_or_text(e.salary_grade_id, Seq::empty()),
                edit_dialog: Some(EditDialogView::EditEmployee { id: e.id }),
                ..app
            }
        } else {
            app
        }
    }

    /// Handles a click on the edit button of the employee at `index`.
    pub fn start_edit_employee(&mut self, index: usize)
        ensures
            final(self)@ == PersonnelApp::spec_start_edit_employee(old(self)@, index as int),
    {
        if index < self.employees.len() {
            let e = &self.employees[index];
            let first_name = e.first_name.clone();
            let last_name = e.last_name.clone();
            let email = e.email.clone();
            let role = e.role.clone();
            let dept = or_text(e.department_id.clone(), "");
            let manager = or_text(e.manager_id.clone(), "");
            let grade = or_text(e.salary_grade_id.clone(), "");
            let dialog = EditDialog::EditEmployee { id: e.id.clone() };
            proof {
                reveal_strlit("");
                assert(""@ =~= Seq::<char>::empty());
            }
            self.emp_first_name = first_name;
            self.emp_last_name = last_name;
            self.emp_email = email;
            self.emp_role = role;
            self.emp_dept_id = dept;
            self.emp_manager_id = manager;
            self.emp_salary_grade_id = grade;
            self.edit_dialog = Some(dialog);
        }
    }

    /// Opens the form that creates an employee, empty.
    pub fn start_create_employee(&mut self)
        ensures
            final(self)@ == (PersonnelAppView {
                edit_dialog: Some(EditDialogView::CreateEmployee),
                ..PersonnelApp::spec_clear_emp_form(old(self)@)
            }),
    {
        self.clear_emp_form();
        self.edit_dialog = Some(EditDialog::CreateEmployee);
    }

    /// The state after a click on a salary grade's delete button. The
    /// action that then waits for confirmation carries the number of the
    /// employees that hold the grade, counted in the snapshot.
    pub open spec fn spec_request_delete_salary_grade(
        app: PersonnelAppView,
        index: int,
    ) -> PersonnelAppView {
        if 0 <= index < app.salary_grades.len() {
            let g = app.salary_grades[index];
            PersonnelAppView {
                confirm_dialog: Some(
                    ConfirmActionView::DeleteSalaryGrade {
                        id: g.id,
                        code: g.code,
                        employee_count: spec_count_with_grade(app.employees, g.id) as usize,
                    },
                ),
                ..app
            }
        } else {
            app
        }
    }

    /// Handles a click on the delete button of the salary grade at `index`.
    pub fn request_delete_salary_grade(&mut self, index: usize)
        ensures
            final(self)@ == PersonnelApp::spec_request_delete_salary_grade(
                old(self)@,
                index as int,
            ),
    {
        if index < self.salary_grades.len() {
            let g = &self.salary_grades[index];
            let employee_count = count_with_grade(&self.employees, &g.id);
            let action = ConfirmAction::DeleteSalaryGrade {
                id: g.id.clone(),
                code: g.code.clone(),
                employee_count,
            };
            self.confirm_dialog = Some(action);
        }
    }

    /// The state after a click on a salary grade's edit button. `salary` is
    /// the grade's amount as the salary field is to show it.
    pub open spec fn spec_start_edit_salary_grade(
        app: PersonnelAppView,
        index: int,
        salary: Seq<char>,
    ) -> PersonnelAppView {
        if 0 <= index < app.salary_grades.len() {
            let g = app.salary_grades[index];
            PersonnelAppView {
                grade_code: g.code,
                grade_salary: salary,
                grade_desc: spec_or_text(g.description, Seq::empty()),
                edit_dialog: Some(EditDialogView::EditSalaryGrade { id: g.id }),
                ..app
            }
        } else {
            app
        }
    }

    /// Handles a click on the edit button of the salary grade at `index`.
    pub fn start_edit_salary_grade(&mut self, index: usize, salary: String)
        ensures
            final(self)@ == PersonnelApp::spec_start_edit_salary_grade(
                old(self)@,
                index as int,
                salary@,
            ),
    {
        if index < self.salary_grades.len() {
            let g = &self.salary_grades[index];
            let code = g.code.clone();
            let desc = or_text(g.description.clone(), "");
            let dialog = EditDialog::EditSalaryGrade { id: g.id.clone() };
            proof {
                reveal_strlit("");
                assert(""@ =~= Seq::<char>::empty());
            }
            self.grade_code = code;
            self.grade_salary = salary;
            self.grade_desc = desc;
            self.edit_dialog = Some(dialog);
        }
    }

    /// Opens the form that creates a salary grade, empty.
    pub fn start_create_salary_grade(&mut self)
        ensures
            final(self)@ == (PersonnelAppView {
                edit_dialog: Some(EditDialogView::CreateSalaryGrade),
                ..PersonnelApp::spec_clear_grade_form(old(self)@)
            }),
    {
        self.clear_grade_form();
        self.edit_dialog = Some(EditDialog::CreateSalaryGrade);
    }
}

} // verus!
