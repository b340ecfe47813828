//! What the client's plans achieve against a backend that carries out
//! every call, stated over the model of `backend` and proved.

use vstd::prelude::*;
use crate::app::{PersonnelApp, PersonnelAppView};
use crate::backend::{
    created_department, created_employee, created_salary_grade, department_matches,
    departments_with, employee_matches, employees_with, is_active, other_department,
    other_employee, other_salary_grade, salary_grade_matches, AbsentField, Backend, Mint,
    Session,
};
use crate::dialogs::ConfirmActionView;
use crate::models::{Salary, UpdateEmployeeRequest};
use crate::workflow::{role_department_head, role_employee, ReplyView, StepView};

verus! {

/// The session once a confirmed action is settled: the form that staged
/// the action is cleared, the backend has carried out the plan, and the
/// client has taken in every reply.
pub open spec fn settled(
    app: PersonnelAppView,
    backend: Backend,
    action: ConfirmActionView,
    salary: Option<Salary>,
    absent: AbsentField,
    mint: Mint,
) -> Session {
    (Session { app: PersonnelApp::spec_staged_cleared(app, action), backend }).run(
        PersonnelApp::spec_plan(app, action, salary),
        0,
        absent,
        mint,
    )
}

proof fn lemma_filter_members<A>(s: Seq<A>, p: spec_fn(A) -> bool)
    ensures
        forall|j: int|
            0 <= j < s.filter(p).len() ==> p(#[trigger] s.filter(p)[j]) && s.contains(
                s.filter(p)[j],
            ),
    decreases s.len(),
{
    reveal(Seq::filter);
    if s.len() > 0 {
        lemma_filter_members(s.drop_last(), p);
        let rest = s.drop_last().filter(p);
        assert forall|j: int| 0 <= j < s.filter(p).len() implies p(#[trigger] s.filter(p)[j])
            && s.contains(s.filter(p)[j]) by {
            if j < rest.len() {
                assert(s.drop_last().contains(rest[j]));
                let i = choose|i: int| 0 <= i < s.drop_last().len() && s.drop_last()[i] == rest[j];
                assert(s[i] == rest[j]);
            } else {
                assert(s[s.len() - 1] == s.last());
            }
        }
    }
}

proof fn lemma_filter_keeps<A>(s: Seq<A>, p: spec_fn(A) -> bool, i: int)
    requires
        0 <= i < s.len(),
        p(s[i]),
    ensures
        s.filter(p).contains(s[i]),
    decreases s.len(),
{
    reveal(Seq::filter);
    let rest = s.drop_last().filter(p);
    if i < s.len() - 1 {
        lemma_filter_keeps(s.drop_last(), p, i);
        let j = choose|j: int| 0 <= j < rest.len() && rest[j] == s.drop_last()[i];
        assert(s.filter(p)[j] == s[i]);
    } else {
        assert(s.filter(p)[rest.len() as int] == s[i]);
    }
}

/// After a department was created and the plan is settled, the snapshot of
/// the departments holds a record with the name that was confirmed and the
/// head that the form held.
pub proof fn law_created_department_is_shown(
    app: PersonnelAppView,
    backend: Backend,
    action: ConfirmActionView,
    salary: Option<Salary>,
    absent: AbsentField,
    mint: Mint,
)
    requires
        action is CreateDepartment,
    ensures
        exists|i: int|
            0 <= i < settled(app, backend, action, salary, absent, mint).app.departments.len()
                && department_matches(
                #[trigger] settled(app, backend, action, salary, absent, mint).app.departments[i],
                PersonnelApp::spec_department_creation(app, action->CreateDepartment_name),
            ),
{
    reveal_with_fuel(Session::run, 3);
    let end = settled(app, backend, action, salary, absent, mint);
    let req = PersonnelApp::spec_department_creation(app, action->CreateDepartment_name);
    let last = backend.departments.len() as int;
    assert(end.app.departments == backend.departments.push(
        created_department(req, mint.department),
    ));
    assert(department_matches(end.app.departments[last], req));
}

/// After an employee was created and the plan is settled, the snapshot of
/// the employees holds a record with what the form held, provided that the
/// backend creates employees as active ones: the snapshot lists no
/// inactive employee.
pub proof fn law_created_employee_is_shown(
    app: PersonnelAppView,
    backend: Backend,
    action: ConfirmActionView,
    salary: Option<Salary>,
    absent: AbsentField,
    mint: Mint,
)
    requires
        action is CreateEmployee,
        mint.employee.active,
    ensures
        exists|i: int|
            0 <= i < settled(app, backend, action, salary, absent, mint).app.employees.len()
                && employee_matches(
                #[trigger] settled(app, backend, action, salary, absent, mint).app.employees[i],
                PersonnelApp::spec_employee_creation(app),
            ),
{
    reveal_with_fuel(Session::run, 3);
    let end = settled(app, backend, action, salary, absent, mint);
    let req = PersonnelApp::spec_employee_creation(app);
    let made = created_employee(req, mint.employee);
    let all = backend.employees.push(made);
    assert(end.app.employees == all.filter(is_active()));
    assert(all[backend.employees.len() as int] == made);
    lemma_filter_keeps(all, is_active(), backend.employees.len() as int);
    let i = choose|i: int| 0 <= i < end.app.employees.len() && end.app.employees[i] == made;
    assert(employee_matches(end.app.employees[i], req));
}

/// After a salary grade was created and the plan is settled, the snapshot
/// of the salary grades holds a record with the code that was confirmed
/// and the amount and the description that the form held.
pub proof fn law_created_salary_grade_is_shown(
    app: PersonnelAppView,
    backend: Backend,
    action: ConfirmActionView,
    salary: Option<Salary>,
    absent: AbsentField,
    mint: Mint,
)
    requires
        action is CreateSalaryGrade,
    ensures
        exists|i: int|
            0 <= i < settled(app, backend, action, salary, absent, mint).app.salary_grades.len()
                && salary_grade_matches(
                #[trigger] settled(
                    app,
                    backend,
                    action,
                    salary,
                    absent,
                    mint,
                ).app.salary_grades[i],
                PersonnelApp::spec_salary_grade_creation(
                    app,
                    action->CreateSalaryGrade_code,
                    salary,
                ),
            ),
{
    reveal_with_fuel(Session::run, 3);
    let end = settled(app, backend, action, salary, absent, mint);
    let req = PersonnelApp::spec_salary_grade_creation(
        app,
        action->CreateSalaryGrade_code,
        salary,
    );
    let last = backend.salary_grades.len() as int;
    assert(end.app.salary_grades == backend.salary_grades.push(
        created_salary_grade(req, mint.salary_grade),
    ));
    assert(salary_grade_matches(end.app.salary_grades[last], req));
}

/// After a department was deleted and the plan is settled, no record of
/// the snapshot of the departments has its id, and both snapshots that the
/// deletion can touch hold what the backend then lists: the departments,
/// and the employees, who refer to departments.
pub proof fn law_deleted_department_is_gone(
    app: PersonnelAppView,
    backend: Backend,
    action: ConfirmActionView,
    salary: Option<Salary>,
    absent: AbsentField,
    mint: Mint,
)
    requires
        action is DeleteDepartment,
    ensures
        ({
            let end = settled(app, backend, action, salary, absent, mint);
            &&& forall|i: int|
                0 <= i < end.app.departments.len() ==> (#[trigger] end.app.departments[i]).id
                    != action->DeleteDepartment_id
            &&& end.app.departments == end.backend.departments
            &&& end.app.employees == end.backend.listed_employees(false)
        }),
{
    reveal_with_fuel(Session::run, 4);
    let end = settled(app, backend, action, salary, absent, mint);
    let id = action->DeleteDepartment_id;
    assert(end.app.departments == backend.departments.filter(other_department(id)));
    lemma_filter_members(backend.departments, other_department(id));
}

/// After an employee was deleted and the plan is settled, no record of the
/// snapshot of the employees has its id, and both snapshots that the
/// deletion can touch hold what the backend then lists: the employees, and
/// the departments, which refer to their heads.
pub proof fn law_deleted_employee_is_gone(
    app: PersonnelAppView,
    backend: Backend,
    action: ConfirmActionView,
    salary: Option<Salary>,
    absent: AbsentField,
    mint: Mint,
)
    requires
        action is DeleteEmployee,
    ensures
        ({
            let end = settled(app, backend, action, salary, absent, mint);
            &&& forall|i: int|
                0 <= i < end.app.employees.len() ==> (#[trigger] end.app.employees[i]).id
                    != action->DeleteEmployee_id
            &&& end.app.employees == end.backend.listed_employees(false)
            &&& end.app.departments == end.backend.departments
        }),
{
    reveal_with_fuel(Session::run, 4);
    let end = settled(app, backend, action, salary, absent, mint);
    let id = action->DeleteEmployee_id;
    let left = backend.employees.filter(other_employee(id));
    assert(end.app.employees == left.filter(is_active()));
    lemma_filter_members(backend.employees, other_employee(id));
    lemma_filter_members(left, is_active());
    assert forall|i: int| 0 <= i < end.app.employees.len() implies (
    #[trigger] end.app.employees[i]).id != id by {
        assert(left.contains(left.filter(is_active())[i]));
    }
}

/// After a salary grade was deleted and the plan is settled, no record of
/// the snapshot of the salary grades has its id, and both snapshots that
/// the deletion can touch hold what the backend then lists: the salary
/// grades, and the employees, who refer to salary grades.
pub proof fn law_deleted_salary_grade_is_gone(
    app: PersonnelAppView,
    backend: Backend,
    action: ConfirmActionView,
    salary: Option<Salary>,
    absent: AbsentField,
    mint: Mint,
)
    requires
        action is DeleteSalaryGrade,
    ensures
        ({
            let end = settled(app, backend, action, salary, absent, mint);
            &&& forall|i: int|
                0 <= i < end.app.salary_grades.len() ==> (
                #[trigger] end.app.salary_grades[i]).id != action->DeleteSalaryGrade_id
            &&& end.app.salary_grades == end.backend.salary_grades
            &&& end.app.employees == end.backend.listed_employees(false)
        }),
{
    reveal_with_fuel(Session::run, 4);
    let end = settled(app, backend, action, salary, absent, mint);
    let id = action->DeleteSalaryGrade_id;
    assert(end.app.salary_grades == backend.salary_grades.filter(other_salary_grade(id)));
    lemma_filter_members(backend.salary_grades, other_salary_grade(id));
}

/// Updating an employee twice with one payload leaves the backend as
/// updating it once does. So does demoting or promoting a head twice: the
/// role after the second call is the role after the first.
pub proof fn law_employee_update_is_idempotent(
    backend: Backend,
    step: StepView,
    absent: AbsentField,
    mint: Mint,
)
    requires
        step is UpdateEmployee || step is DemoteHead || step is PromoteHead,
    ensures
        backend.after(step, absent, mint).after(step, absent, mint) == backend.after(
            step,
            absent,
            mint,
        ),
{
    let once = backend.after(step, absent, mint);
    let twice = once.after(step, absent, mint);
    assert(twice.employees =~= once.employees);
    assert(twice =~= once);
}

/// When a department whose head is `a` gets the head `b`, another
/// employee, the plan demotes `a`, promotes `b`, sends one update of the
/// department with the head `b`, and reloads the departments and the
/// employees. Once the plan is settled every employee with the id `a`
/// has the role of an employee, every employee with the id `b` has the
/// role of a department head, and every department with the department's
/// id has the head `b`: in the backend, and in the snapshots, whatever the
/// forms hold. The backend holds the same employees and departments as
/// before, in the same order.
pub proof fn law_head_reassignment(
    app: PersonnelAppView,
    backend: Backend,
    action: ConfirmActionView,
    a: Seq<char>,
    b: Seq<char>,
    salary: Option<Salary>,
    absent: AbsentField,
    mint: Mint,
)
    requires
        action is UpdateDepartment,
        action->old_head_id == Some(a),
        action->new_head_id == Some(b),
        a != b,
    ensures
        ({
            let end = settled(app, backend, action, salary, absent, mint);
            &&& PersonnelApp::spec_plan(app, action, salary) == seq![
                StepView::DemoteHead { employee_id: a },
                StepView::PromoteHead { employee_id: b },
                StepView::UpdateDepartment {
                    id: action->UpdateDepartment_id,
                    req: PersonnelApp::spec_department_update(
                        action->UpdateDepartment_name,
                        Some(b),
                    ),
                },
                StepView::RefreshDepartments,
                StepView::RefreshEmployees,
            ]
            &&& end.backend.employees.len() == backend.employees.len()
            &&& end.backend.departments.len() == backend.departments.len()
            &&& forall|i: int|
                0 <= i < backend.employees.len() ==> (#[trigger] end.backend.employees[i]).id
                    == backend.employees[i].id
            &&& forall|i: int|
                0 <= i < backend.departments.len() ==> (#[trigger] end.backend.departments[i]).id
                    == backend.departments[i].id
            &&& forall|i: int|
                0 <= i < end.backend.employees.len() && (#[trigger] end.backend.employees[i]).id
                    == a ==> end.backend.employees[i].role == role_employee()
            &&& forall|i: int|
                0 <= i < end.backend.employees.len() && (#[trigger] end.backend.employees[i]).id
                    == b ==> end.backend.employees[i].role == role_department_head()
            &&& forall|i: int|
                0 <= i < end.backend.departments.len() && (
                #[trigger] end.backend.departments[i]).id == action->UpdateDepartment_id
                    ==> end.backend.departments[i].head_id == Some(b)
            &&& end.app.departments == end.backend.departments
            &&& end.app.employees == end.backend.listed_employees(false)
            &&& forall|i: int|
                0 <= i < end.app.employees.len() && (#[trigger] end.app.employees[i]).id == a
                    ==> end.app.employees[i].role == role_employee()
            &&& forall|i: int|
                0 <= i < end.app.employees.len() && (#[trigger] end.app.employees[i]).id == b
                    ==> end.app.employees[i].role == role_department_head()
        }),
{
    let id = action->UpdateDepartment_id;
    let req = PersonnelApp::spec_department_update(action->UpdateDepartment_name, Some(b));
    let plan = PersonnelApp::spec_plan(app, action, salary);
    assert(plan =~= seq![
        StepView::DemoteHead { employee_id: a },
        StepView::PromoteHead { employee_id: b },
        StepView::UpdateDepartment { id, req },
        StepView::RefreshDepartments,
        StepView::RefreshEmployees,
    ]);
    reveal_with_fuel(Session::run, 6);
    let end = settled(app, backend, action, salary, absent, mint);
    let demoted = employees_with(
        backend.employees,
        a,
        UpdateEmployeeRequest::spec_role_only(role_employee()),
        absent,
    );
    let promoted = employees_with(
        demoted,
        b,
        UpdateEmployeeRequest::spec_role_only(role_department_head()),
        absent,
    );
    assert(end.backend.employees == promoted);
    assert(end.backend.departments == departments_with(backend.departments, id, req, absent));
    assert(end.app.employees == promoted.filter(is_active()));
    lemma_filter_members(promoted, is_active());
    assert forall|i: int|
        0 <= i < end.app.employees.len() && (#[trigger] end.app.employees[i]).id
            == a implies end.app.employees[i].role == role_employee() by {
        let e = end.app.employees[i];
        assert(promoted.contains(promoted.filter(is_active())[i]));
        let k = choose|k: int| 0 <= k < promoted.len() && promoted[k] == e;
        assert(promoted[k].role == role_employee());
    }
    assert forall|i: int|
        0 <= i < end.app.employees.len() && (#[trigger] end.app.employees[i]).id
            == b implies end.app.employees[i].role == role_department_head() by {
        let e = end.app.employees[i];
        assert(promoted.contains(promoted.filter(is_active())[i]));
        let k = choose|k: int| 0 <= k < promoted.len() && promoted[k] == e;
        assert(promoted[k].role == role_department_head());
    }
}

/// When a department whose head is `a` loses its head, the plan demotes
/// `a` and sends an update of the department that names no head. Once the
/// plan is settled every employee with the id `a` has the role of an
/// employee, in the backend and in the snapshot.
pub proof fn law_head_removal_demotes(
    app: PersonnelAppView,
    backend: Backend,
    action: ConfirmActionView,
    a: Seq<char>,
    salary: Option<Salary>,
    absent: AbsentField,
    mint: Mint,
)
    requires
        action is UpdateDepartment,
        action->old_head_id == Some(a),
        action->new_head_id == None::<Seq<char>>,
    ensures
        ({
            let end = settled(app, backend, action, salary, absent, mint);
            let plan = PersonnelApp::spec_plan(app, action, salary);
            &&& plan.len() == 4
            &&& plan[0] == StepView::DemoteHead { employee_id: a }
            &&& plan[1] matches StepView::UpdateDepartment { id, req } && id
                == action->UpdateDepartment_id && req.head_id == None::<Seq<char>>
            &&& end.backend.employees.len() == backend.employees.len()
            &&& forall|i: int|
                0 <= i < backend.employees.len() ==> (#[trigger] end.backend.employees[i]).id
                    == backend.employees[i].id
            &&& forall|i: int|
                0 <= i < end.backend.employees.len() && (#[trigger] end.backend.employees[i]).id
                    == a ==> end.backend.employees[i].role == role_employee()
            &&& forall|i: int|
                0 <= i < end.app.employees.len() && (#[trigger] end.app.employees[i]).id == a
                    ==> end.app.employees[i].role == role_employee()
        }),
{
    let id = action->UpdateDepartment_id;
    let req = PersonnelApp::spec_department_update(
        action->UpdateDepartment_name,
        None::<Seq<char>>,
    );
    let plan = PersonnelApp::spec_plan(app, action, salary);
    assert(plan =~= seq![
        StepView::DemoteHead { employee_id: a },
        StepView::UpdateDepartment { id, req },
        StepView::RefreshDepartments,
        StepView::RefreshEmployees,
    ]);
    reveal_with_fuel(Session::run, 5);
    let end = settled(app, backend, action, salary, absent, mint);
    let demoted = employees_with(
        backend.employees,
        a,
        UpdateEmployeeRequest::spec_role_only(role_employee()),
        absent,
    );
    assert(end.backend.employees == demoted);
    assert(end.app.employees == demoted.filter(is_active()));
    lemma_filter_members(demoted, is_active());
    assert forall|i: int|
        0 <= i < end.app.employees.len() && (#[trigger] end.app.employees[i]).id
            == a implies end.app.employees[i].role == role_employee() by {
        let e = end.app.employees[i];
        assert(demoted.contains(demoted.filter(is_active())[i]));
        let k = choose|k: int| 0 <= k < demoted.len() && demoted[k] == e;
        assert(demoted[k].role == role_employee());
    }
}

/// When a department loses its head and the backend reads a field that an
/// update leaves out as cleared, then once the plan is settled every
/// department with the department's id has no head, in the backend and in
/// the snapshot.
pub proof fn law_head_removal_clears(
    app: PersonnelAppView,
    backend: Backend,
    action: ConfirmActionView,
    a: Seq<char>,
    salary: Option<Salary>,
    absent: AbsentField,
    mint: Mint,
)
    requires
        action is UpdateDepartment,
        action->old_head_id == Some(a),
        action->new_head_id == None::<Seq<char>>,
        absent is Cleared,
    ensures
        ({
            let end = settled(app, backend, action, salary, absent, mint);
            &&& end.app.departments == end.backend.departments
            &&& end.backend.departments.len() == backend.departments.len()
            &&& forall|i: int|
                0 <= i < backend.departments.len() ==> (#[trigger] end.backend.departments[i]).id
                    == backend.departments[i].id
            &&& forall|i: int|
                0 <= i < end.backend.departments.len() && (
                #[trigger] end.backend.departments[i]).id == action->UpdateDepartment_id
                    ==> end.backend.departments[i].head_id == None::<Seq<char>>
        }),
{
    let id = action->UpdateDepartment_id;
    let req = PersonnelApp::spec_department_update(
        action->UpdateDepartment_name,
        None::<Seq<char>>,
    );
    let plan = PersonnelApp::spec_plan(app, action, salary);
    assert(plan =~= seq![
        StepView::DemoteHead { employee_id: a },
        StepView::UpdateDepartment { id, req },
        StepView::RefreshDepartments,
        StepView::RefreshEmployees,
    ]);
    reveal_with_fuel(Session::run, 5);
    let end = settled(app, backend, action, salary, absent, mint);
    assert(end.backend.departments == departments_with(backend.departments, id, req, absent));
}

/// A reload that fails leaves every snapshot as it was, and a reload that
/// succeeds replaces its snapshot by what was fetched and leaves the other
/// two alone.
pub proof fn law_reload_replaces_or_keeps(app: PersonnelAppView, reply: ReplyView)
    ensures
        ({
            let next = PersonnelApp::spec_receive(app, reply);
            &&& next.departments == match reply {
                ReplyView::Departments(Ok(records)) => records,
                _ => app.departments,
            }
            &&& next.employees == match reply {
                ReplyView::Employees(Ok(records)) => records,
                _ => app.employees,
            }
            &&& next.salary_grades == match reply {
                ReplyView::SalaryGrades(Ok(records)) => records,
                _ => app.salary_grades,
            }
        }),
{
}

/// A snapshot without a record is shown as a notice and no card; a
/// snapshot with records is shown as one card for each and no notice.
pub proof fn law_empty_snapshot_is_a_notice(app: PersonnelAppView, amounts: Seq<Seq<char>>)
    ensures
        ({
            let d = PersonnelApp::spec_show_departments(app);
            let e = PersonnelApp::spec_show_employees(app, amounts);
            let g = PersonnelApp::spec_show_salary_grades(app, amounts);
            &&& d.cards.len() == app.departments.len()
            &&& e.cards.len() == app.employees.len()
            &&& g.cards.len() == app.salary_grades.len()
            &&& d.empty_notice is Some <==> app.departments.len() == 0
            &&& e.empty_notice is Some <==> app.employees.len() == 0
            &&& g.empty_notice is Some <==> app.salary_grades.len() == 0
        }),
{
}

} // verus!
