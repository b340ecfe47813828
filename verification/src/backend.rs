//! A model of the backend, for stating what the client's plans achieve.
//!
//! The model is ghost: nothing here runs. It says what a backend that
//! carries out every call does to its records, and what it then lists.
//! Two things that only the backend decides are left open. What a new
//! record holds beside its payload (its id, its dates) comes from a
//! [`Mint`]. And how an update reads a field that the payload leaves out
//! is an [`AbsentField`]: the laws hold for either reading unless they say
//! otherwise.

use vstd::prelude::*;
use crate::app::{PersonnelApp, PersonnelAppView};
use crate::models::{
    CreateDepartmentRequestView, CreateEmployeeRequestView, CreateSalaryGradeRequestView,
    DepartmentView, EmployeeView, SalaryGradeView, UpdateDepartmentRequestView,
    UpdateEmployeeRequest, UpdateEmployeeRequestView, UpdateSalaryGradeRequestView,
};
use crate::workflow::{role_department_head, role_employee, ReplyView, StepView};

verus! {

/// The records that the backend holds.
#[verifier::ext_equal]
pub ghost struct Backend {
    pub departments: Seq<DepartmentView>,
    pub employees: Seq<EmployeeView>,
    pub salary_grades: Seq<SalaryGradeView>,
}

/// How the backend reads an optional field that an update leaves out.
pub ghost enum AbsentField {
    /// The record keeps what it has.
    Unchanged,
    /// The record loses what it has.
    Cleared,
}

/// What the backend chooses for the next record it creates: of each
/// record here, the fields that no payload sets.
pub ghost struct Mint {
    pub department: DepartmentView,
    pub employee: EmployeeView,
    pub salary_grade: SalaryGradeView,
}

/// A mandatory field after an update.
pub open spec fn kept<T>(current: T, sent: Option<T>) -> T {
    match sent {
        Some(value) => value,
        None => current,
    }
}

/// An optional field after an update.
pub open spec fn merged<T>(absent: AbsentField, current: Option<T>, sent: Option<T>) -> Option<T> {
    match sent {
        Some(value) => Some(value),
        None => match absent {
            AbsentField::Unchanged => current,
            AbsentField::Cleared => None,
        },
    }
}

/// A department after an update with this payload.
pub open spec fn updated_department(
    d: DepartmentView,
    req: UpdateDepartmentRequestView,
    absent: AbsentField,
) -> DepartmentView {
    DepartmentView {
        name: kept(d.name, req.name),
        head_id: merged(absent, d.head_id, req.head_id),
        ..d
    }
}

/// An employee after an update with this payload.
pub open spec fn updated_employee(
    e: EmployeeView,
    req: UpdateEmployeeRequestView,
    absent: AbsentField,
) -> EmployeeView {
    EmployeeView {
        first_name: kept(e.first_name, req.first_name),
        last_name: kept(e.last_name, req.last_name),
        email: kept(e.email, req.email),
        role: kept(e.role, req.role),
        active: kept(e.active, req.active),
        department_id: merged(absent, e.department_id, req.department_id),
        manager_id: merged(absent, e.manager_id, req.manager_id),
        salary_grade_id: merged(absent, e.salary_grade_id, req.salary_grade_id),
        hire_date: merged(absent, e.hire_date, req.hire_date),
        ..e
    }
}

/// A salary grade after an update with this payload.
pub open spec fn updated_salary_grade(
    g: SalaryGradeView,
    req: UpdateSalaryGradeRequestView,
    absent: AbsentField,
) -> SalaryGradeView {
    SalaryGradeView {
        code: kept(g.code, req.code),
        base_salary: kept(g.base_salary, req.base_salary),
        description: merged(absent, g.description, req.description),
        ..g
    }
}

/// The department that a payload creates.
pub open spec fn created_department(
    req: CreateDepartmentRequestView,
    mint: DepartmentView,
) -> DepartmentView {
    DepartmentView { name: req.name, head_id: req.head_id, ..mint }
}

/// The employee that a payload creates. A payload without a role leaves
/// the role to the backend.
pub open spec fn created_employee(req: CreateEmployeeRequestView, mint: EmployeeView) -> EmployeeView {
    EmployeeView {
        first_name: req.first_name,
        last_name: req.last_name,
        email: req.email,
        role: kept(mint.role, req.role),
        department_id: req.department_id,
        manager_id: req.manager_id,
        salary_grade_id: req.salary_grade_id,
        hire_date: req.hire_date,
        ..mint
    }
}

/// The salary grade that a payload creates.
pub open spec fn created_salary_grade(
    req: CreateSalaryGradeRequestView,
    mint: SalaryGradeView,
) -> SalaryGradeView {
    SalaryGradeView {
        code: req.code,
        base_salary: req.base_salary,
        description: req.description,
        ..mint
    }
}

/// Whether a department holds what a payload asked for.
pub open spec fn department_matches(d: DepartmentView, req: CreateDepartmentRequestView) -> bool {
    d.name == req.name && d.head_id == req.head_id
}

/// Whether an employee holds what a payload asked for.
pub open spec fn employee_matches(e: EmployeeView, req: CreateEmployeeRequestView) -> bool {
    &&& e.first_name == req.first_name
    &&& e.last_name == req.last_name
    &&& e.email == req.email
    &&& e.department_id == req.department_id
    &&& e.manager_id == req.manager_id
    &&& e.salary_grade_id == req.salary_grade_id
    &&& e.hire_date == req.hire_date
    &&& (req.role is Some ==> Some(e.role) == req.role)
}

/// Whether a salary grade holds what a payload asked for.
pub open spec fn salary_grade_matches(g: SalaryGradeView, req: CreateSalaryGradeRequestView) -> bool {
    g.code == req.code && g.base_salary == req.base_salary && g.description == req.description
}

/// The departments after every one with the id `id` was updated.
pub open spec fn departments_with(
    s: Seq<DepartmentView>,
    id: Seq<char>,
    req: UpdateDepartmentRequestView,
    absent: AbsentField,
) -> Seq<DepartmentView> {
    Seq::new(
        s.len(),
        |i: int|
            if s[i].id == id {
                updated_department(s[i], req, absent)
            } else {
                s[i]
            },
    )
}

/// The employees after every one with the id `id` was updated.
pub open spec fn employees_with(
    s: Seq<EmployeeView>,
    id: Seq<char>,
    req: UpdateEmployeeRequestView,
    absent: AbsentField,
) -> Seq<EmployeeView> {
    Seq::new(
        s.len(),
        |i: int|
            if s[i].id == id {
                updated_employee(s[i], req, absent)
            } else {
                s[i]
            },
    )
}

/// The salary grades after every one with the id `id` was updated.
pub open spec fn salary_grades_with(
    s: Seq<SalaryGradeView>,
    id: Seq<char>,
    req: UpdateSalaryGradeRequestView,
    absent: AbsentField,
) -> Seq<SalaryGradeView> {
    Seq::new(
        s.len(),
        |i: int|
            if s[i].id == id {
                updated_salary_grade(s[i], req, absent)
            } else {
                s[i]
            },
    )
}

/// Whether a department has another id than `id`.
pub open spec fn other_department(id: Seq<char>) -> spec_fn(DepartmentView) -> bool {
    |d: DepartmentView| d.id != id
}

/// Whether an employee has another id than `id`.
pub open spec fn other_employee(id: Seq<char>) -> spec_fn(EmployeeView) -> bool {
    |e: EmployeeView| e.id != id
}

/// Whether a salary grade has another id than `id`.
pub open spec fn other_salary_grade(id: Seq<char>) -> spec_fn(SalaryGradeView) -> bool {
    |g: SalaryGradeView| g.id != id
}

/// Whether an employee is active.
pub open spec fn is_active() -> spec_fn(EmployeeView) -> bool {
    |e: EmployeeView| e.active
}

impl Backend {
    /// The backend after it has carried out a step. A reload changes
    /// nothing; a deletion removes every record with the id; an update
    /// changes every record with the id; a creation adds one record at the
    /// end.
    pub open spec fn after(self, step: StepView, absent: AbsentField, mint: Mint) -> Backend {
        match step {
            StepView::DeleteDepartment { id } => Backend {
                departments: self.departments.filter(other_department(id)),
                ..self
            },
            StepView::DeleteEmployee { id } => Backend {
                employees: self.employees.filter(other_employee(id)),
                ..self
            },
            StepView::DeleteSalaryGrade { id } => Backend {
                salary_grades: self.salary_grades.filter(other_salary_grade(id)),
                ..self
            },
            StepView::DemoteHead { employee_id } => Backend {
                employees: employees_with(
                    self.employees,
                    employee_id,
                    UpdateEmployeeRequest::spec_role_only(role_employee()),
                    absent,
                ),
                ..self
            },
            StepView::PromoteHead { employee_id } => Backend {
                employees: employees_with(
                    self.employees,
                    employee_id,
                    UpdateEmployeeRequest::spec_role_only(role_department_head()),
                    absent,
                ),
                ..self
            },
            StepView::UpdateDepartment { id, req } => Backend {
                departments: departments_with(self.departments, id, req, absent),
                ..self
            },
            StepView::UpdateEmployee { id, req } => Backend {
                employees: employees_with(self.employees, id, req, absent),
                ..self
            },
            StepView::UpdateSalaryGrade { id, req } => Backend {
                salary_grades: salary_grades_with(self.salary_grades, id, req, absent),
                ..self
            },
            StepView::CreateDepartment { req } => Backend {
                departments: self.departments.push(created_department(req, mint.department)),
                ..self
            },
            StepView::CreateEmployee { req } => Backend {
                employees: self.employees.push(created_employee(req, mint.employee)),
                ..self
            },
            StepView::CreateSalaryGrade { req } => Backend {
                salary_grades: self.salary_grades.push(
                    created_salary_grade(req, mint.salary_grade),
                ),
                ..self
            },
            StepView::RefreshDepartments => self,
            StepView::RefreshEmployees => self,
            StepView::RefreshSalaryGrades => self,
        }
    }

    /// The employees that the backend lists: all of them, or the active
    /// ones only.
    pub open spec fn listed_employees(self, include_inactive: bool) -> Seq<EmployeeView> {
        if include_inactive {
            self.employees
        } else {
            self.employees.filter(is_active())
        }
    }

    /// What the backend answers to a step once it has carried it out. The
    /// client's reload of the employees asks for the active ones.
    pub open spec fn reply(self, step: StepView) -> ReplyView {
        match step {
            StepView::RefreshDepartments => ReplyView::Departments(Ok(self.departments)),
            StepView::RefreshEmployees => ReplyView::Employees(Ok(self.listed_employees(false))),
            StepView::RefreshSalaryGrades => ReplyView::SalaryGrades(Ok(self.salary_grades)),
            _ => ReplyView::Completed(Ok(())),
        }
    }
}

/// Client and backend side by side.
pub ghost struct Session {
    pub app: PersonnelAppView,
    pub backend: Backend,
}

impl Session {
    /// The session after the steps of `plan` from position `from` on: the
    /// backend carries out each step, and the client takes in the reply.
    pub open spec fn run(
        self,
        plan: Seq<StepView>,
        from: nat,
        absent: AbsentField,
        mint: Mint,
    ) -> Session
        decreases plan.len() - from,
    {
        if from >= plan.len() {
            self
        } else {
            let backend = self.backend.after(plan[from as int], absent, mint);
            let app = PersonnelApp::spec_receive(self.app, backend.reply(plan[from as int]));
            (Session { app, backend }).run(plan, from + 1, absent, mint)
        }
    }
}

} // verus!
