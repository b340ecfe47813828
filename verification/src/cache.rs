//! Reading the client-side snapshots.
//!
//! A snapshot is the list of records that the last successful fetch of a
//! resource brought, in the server's order. Nothing is indexed: every
//! question is answered by one pass over the list.

use vstd::prelude::*;
use crate::models::{
    Department, DepartmentView, Employee, EmployeeView, SalaryGrade, SalaryGradeView,
};
use crate::text::{full_name, spec_full_name};

verus! {

/// The position of the first of `ids`, from position `from` on, that
/// equals `id`.
pub open spec fn first_index(ids: Seq<Seq<char>>, id: Seq<char>, from: nat) -> Option<int>
    decreases ids.len() - from,
{
    if from >= ids.len() {
        None
    } else if ids[from as int] == id {
        Some(from as int)
    } else {
        first_index(ids, id, from + 1)
    }
}

/// What `first_index` finds is the first match, and it finds nothing only
/// where nothing matches.
pub proof fn lemma_first_index(ids: Seq<Seq<char>>, id: Seq<char>, from: nat)
    ensures
        match first_index(ids, id, from) {
            Some(i) => from <= i < ids.len() && ids[i] == id && forall|j: int|
                from <= j < i ==> ids[j] != id,
            None => forall|j: int| from <= j < ids.len() ==> ids[j] != id,
        },
    decreases ids.len() - from,
{
    if from < ids.len() && ids[from as int] != id {
        lemma_first_index(ids, id, from + 1);
    }
}

/// The ids of the departments, in their order.
pub open spec fn department_ids(s: Seq<DepartmentView>) -> Seq<Seq<char>> {
    Seq::new(s.len(), |i: int| s[i].id)
}

/// The ids of the employees, in their order.
pub open spec fn employee_ids(s: Seq<EmployeeView>) -> Seq<Seq<char>> {
    Seq::new(s.len(), |i: int| s[i].id)
}

/// The ids of the salary grades, in their order.
pub open spec fn salary_grade_ids(s: Seq<SalaryGradeView>) -> Seq<Seq<char>> {
    Seq::new(s.len(), |i: int| s[i].id)
}

/// The position of the first department with this id.
pub open spec fn spec_find_department(s: Seq<DepartmentView>, id: Seq<char>) -> Option<int> {
    first_index(department_ids(s), id, 0)
}

/// The position of the first employee with this id.
pub open spec fn spec_find_employee(s: Seq<EmployeeView>, id: Seq<char>) -> Option<int> {
    first_index(employee_ids(s), id, 0)
}

/// The position of the first salary grade with this id.
pub open spec fn spec_find_salary_grade(s: Seq<SalaryGradeView>, id: Seq<char>) -> Option<int> {
    first_index(salary_grade_ids(s), id, 0)
}

/// A position as a mathematical integer.
pub open spec fn index_view(i: Option<usize>) -> Option<int> {
    match i {
        Some(i) => Some(i as int),
        None => None,
    }
}

/// The position of the first department with this id.
pub fn find_department(departments: &Vec<Department>, id: &String) -> (res: Option<usize>)
    ensures
        index_view(res) == spec_find_department(departments.deep_view(), id@),
        res matches Some(i) ==> i < departments.len() && departments[i as int].id@ == id@,
{
    let ghost ids = department_ids(departments.deep_view());
    let mut i: usize = 0;
    while i < departments.len()
        invariant
            i <= departments.len(),
            ids == department_ids(departments.deep_view()),
            first_index(ids, id@, 0) == first_index(ids, id@, i as nat),
        decreases departments.len() - i,
    {
        if departments[i].id == *id {
            return Some(i);
        }
        i += 1;
    }
    None
}

/// The position of the first employee with this id.
pub fn find_employee(employees: &Vec<Employee>, id: &String) -> (res: Option<usize>)
    ensures
        index_view(res) == spec_find_employee(employees.deep_view(), id@),
        res matches Some(i) ==> i < employees.len() && employees[i as int].id@ == id@,
{
    let ghost ids = employee_ids(employees.deep_view());
    let mut i: usize = 0;
    while i < employees.len()
        invariant
            i <= employees.len(),
            ids == employee_ids(employees.deep_view()),
            first_index(ids, id@, 0) == first_index(ids, id@, i as nat),
        decreases employees.len() - i,
    {
        if employees[i].id == *id {
            return Some(i);
        }
        i += 1;
    }
    None
}

/// The position of the first salary grade with this id.
pub fn find_salary_grade(grades: &Vec<SalaryGrade>, id: &String) -> (res: Option<usize>)
    ensures
        index_view(res) == spec_find_salary_grade(grades.deep_view(), id@),
        res matches Some(i) ==> i < grades.len() && grades[i as int].id@ == id@,
{
    let ghost ids = salary_grade_ids(grades.deep_view());
    let mut i: usize = 0;
    while i < grades.len()
        invariant
            i <= grades.len(),
            ids == salary_grade_ids(grades.deep_view()),
            first_index(ids, id@, 0) == first_index(ids, id@, i as nat),
        decreases grades.len() - i,
    {
        if grades[i].id == *id {
            return Some(i);
        }
        i += 1;
    }
    None
}

/// The shown name of the employee that `id` names: nothing where `id` is
/// absent or names no employee of the snapshot.
pub open spec fn spec_employee_name(employees: Seq<EmployeeView>, id: Option<Seq<char>>) -> Option<
    Seq<char>,
> {
    match id {
        None => None,
        Some(id) => match spec_find_employee(employees, id) {
            Some(i) => Some(spec_full_name(employees[i].first_name, employees[i].last_name)),
            None => None,
        },
    }
}

/// The shown name of the employee that `id` names.
pub fn employee_name(employees: &Vec<Employee>, id: &Option<String>) -> (res: Option<String>)
    ensures
        res.deep_view() == spec_employee_name(employees.deep_view(), id.deep_view()),
{
    match id {
        None => None,
        Some(id) => match find_employee(employees, id) {
            Some(i) => Some(
                full_name(employees[i].first_name.as_str(), employees[i].last_name.as_str()),
            ),
            None => None,
        },
    }
}

/// The name of the department that `id` names: nothing where `id` is absent
/// or names no department of the snapshot.
pub open spec fn spec_department_name(
    departments: Seq<DepartmentView>,
    id: Option<Seq<char>>,
) -> Option<Seq<char>> {
    match id {
        None => None,
        Some(id) => match spec_find_department(departments, id) {
            Some(i) => Some(departments[i].name),
            None => None,
        },
    }
}

/// The name of the department that `id` names.
pub fn department_name(departments: &Vec<Department>, id: &Option<String>) -> (res: Option<
    String,
>)
    ensures
        res.deep_view() == spec_department_name(departments.deep_view(), id.deep_view()),
{
    match id {
        None => None,
        Some(id) => match find_department(departments, id) {
            Some(i) => Some(departments[i].name.clone()),
            None => None,
        },
    }
}

/// Whether an employee belongs to the department with this id.
pub open spec fn in_department(dept_id: Seq<char>) -> spec_fn(EmployeeView) -> bool {
    |e: EmployeeView| e.department_id == Some(dept_id)
}

/// Whether an employee holds the salary grade with this id.
pub open spec fn with_grade(grade_id: Seq<char>) -> spec_fn(EmployeeView) -> bool {
    |e: EmployeeView| e.salary_grade_id == Some(grade_id)
}

/// How many employees of the snapshot belong to the department.
pub open spec fn spec_count_in_department(employees: Seq<EmployeeView>, dept_id: Seq<char>) -> nat {
    employees.filter(in_department(dept_id)).len()
}

/// How many employees of the snapshot hold the salary grade.
pub open spec fn spec_count_with_grade(employees: Seq<EmployeeView>, grade_id: Seq<char>) -> nat {
    employees.filter(with_grade(grade_id)).len()
}

fn names(field: &Option<String>, id: &String) -> (res: bool)
    ensures
        res == (field.deep_view() == Some(id@)),
{
    match field {
        Some(value) => *value == *id,
        None => false,
    }
}

proof fn lemma_filter_step<A>(s: Seq<A>, p: spec_fn(A) -> bool, i: int)
    requires
        0 <= i < s.len(),
    ensures
        s.take(i + 1).filter(p) == if p(s[i]) {
            s.take(i).filter(p).push(s[i])
        } else {
            s.take(i).filter(p)
        },
{
    reveal(Seq::filter);
    assert(s.take(i + 1).drop_last() =~= s.take(i));
}

/// How many employees of the snapshot belong to the department.
pub fn count_in_department(employees: &Vec<Employee>, dept_id: &String) -> (res: usize)
    ensures
        res == spec_count_in_department(employees.deep_view(), dept_id@),
{
    let ghost all = employees.deep_view();
    let ghost p = in_department(dept_id@);
    let mut count: usize = 0;
    let mut i: usize = 0;
    proof {
        reveal(Seq::filter);
        assert(all.take(0).filter(p).len() == 0);
    }
    while i < employees.len()
        invariant
            i <= employees.len(),
            all == employees.deep_view(),
            p == in_department(dept_id@),
            count <= i,
            count == all.take(i as int).filter(p).len(),
        decreases employees.len() - i,
    {
        proof {
            lemma_filter_step(all, p, i as int);
        }
        if names(&employees[i].department_id, dept_id) {
            count += 1;
        }
        i += 1;
    }
    assert(all.take(i as int) =~= all);
    count
}

/// How many employees of the snapshot hold the salary grade.
pub fn count_with_grade(employees: &Vec<Employee>, grade_id: &String) -> (res: usize)
    ensures
        res == spec_count_with_grade(employees.deep_view(), grade_id@),
{
    let ghost all = employees.deep_view();
    let ghost p = with_grade(grade_id@);
    let mut count: usize = 0;
    let mut i: usize = 0;
    proof {
        reveal(Seq::filter);
        assert(all.take(0).filter(p).len() == 0);
    }
    while i < employees.len()
        invariant
            i <= employees.len(),
            all == employees.deep_view(),
            p == with_grade(grade_id@),
            count <= i,
            count == all.take(i as int).filter(p).len(),
        decreases employees.len() - i,
    {
        proof {
            lemma_filter_step(all, p, i as int);
        }
        if names(&employees[i].salary_grade_id, grade_id) {
            count += 1;
        }
        i += 1;
    }
    assert(all.take(i as int) =~= all);
    count
}

/// One line of a roster: name and role of an employee.
pub open spec fn spec_roster_line(e: EmployeeView) -> Seq<char> {
    e.first_name + " "@ + e.last_name + " ("@ + e.role + ")"@
}

/// One line of a roster: name and role of an employee.
pub fn roster_line(e: &Employee) -> (res: String)
    ensures
        res@ == spec_roster_line(e@),
{
    let mut line = e.first_name.clone();
    line.append(" ");
    line.append(e.last_name.as_str());
    line.append(" (");
    line.append(e.role.as_str());
    line.append(")");
    line
}

/// The roster line of an employee that `keep` holds of, nothing of another.
pub open spec fn roster_entry(keep: spec_fn(EmployeeView) -> bool) -> spec_fn(EmployeeView) -> Option<
    Seq<char>,
> {
    |e: EmployeeView|
        if keep(e) {
            Some(spec_roster_line(e))
        } else {
            None
        }
}

/// The roster lines of the employees that belong to the department, in the
/// snapshot's order.
pub open spec fn spec_employees_in_department(
    employees: Seq<EmployeeView>,
    dept_id: Seq<char>,
) -> Seq<Seq<char>> {
    employees.filter_map(roster_entry(in_department(dept_id)))
}

/// The roster lines of the employees that hold the salary grade, in the
/// snapshot's order.
pub open spec fn spec_employees_with_grade(
    employees: Seq<EmployeeView>,
    grade_id: Seq<char>,
) -> Seq<Seq<char>> {
    employees.filter_map(roster_entry(with_grade(grade_id)))
}

proof fn lemma_filter_map_step<A, B>(s: Seq<A>, f: spec_fn(A) -> Option<B>, i: int)
    requires
        0 <= i < s.len(),
    ensures
        s.take(i + 1).filter_map(f) == match f(s[i]) {
            Some(b) => s.take(i).filter_map(f).push(b),
            None => s.take(i).filter_map(f),
        },
{
    assert(s.take(i + 1).drop_last() =~= s.take(i));
    match f(s[i]) {
        Some(b) => {
            assert(s.take(i).filter_map(f) + seq![b] =~= s.take(i).filter_map(f).push(b));
        },
        None => {},
    }
}

/// The roster lines of the employees that belong to the department.
pub fn employees_in_department(employees: &Vec<Employee>, dept_id: &String) -> (res: Vec<String>)
    ensures
        res.deep_view() == spec_employees_in_department(employees.deep_view(), dept_id@),
{
    let ghost all = employees.deep_view();
    let ghost f = roster_entry(in_department(dept_id@));
    let mut lines: Vec<String> = Vec::new();
    let mut i: usize = 0;
    assert(lines.deep_view() =~= all.take(0).filter_map(f));
    while i < employees.len()
        invariant
            i <= employees.len(),
            all == employees.deep_view(),
            f == roster_entry(in_department(dept_id@)),
            lines.deep_view() == all.take(i as int).filter_map(f),
        decreases employees.len() - i,
    {
        proof {
            lemma_filter_map_step(all, f, i as int);
        }
        if names(&employees[i].department_id, dept_id) {
            let ghost before = lines.deep_view();
            let line = roster_line(&employees[i]);
            lines.push(line);
            assert(lines.deep_view() =~= before.push(spec_roster_line(all[i as int])));
        }
        i += 1;
    }
    assert(all.take(i as int) =~= all);
    lines
}

/// The roster lines of the employees that hold the salary grade.
pub fn employees_with_grade(employees: &Vec<Employee>, grade_id: &String) -> (res: Vec<String>)
    ensures
        res.deep_view() == spec_employees_with_grade(employees.deep_view(), grade_id@),
{
    let ghost all = employees.deep_view();
    let ghost f = roster_entry(with_grade(grade_id@));
    let mut lines: Vec<String> = Vec::new();
    let mut i: usize = 0;
    assert(lines.deep_view() =~= all.take(0).filter_map(f));
    while i < employees.len()
        invariant
            i <= employees.len(),
            all == employees.deep_view(),
            f == roster_entry(with_grade(grade_id@)),
            lines.deep_view() == all.take(i as int).filter_map(f),
        decreases employees.len() - i,
    {
        proof {
            lemma_filter_map_step(all, f, i as int);
        }
        if names(&employees[i].salary_grade_id, grade_id) {
            let ghost before = lines.deep_view();
            let line = roster_line(&employees[i]);
            lines.push(line);
            assert(lines.deep_view() =~= before.push(spec_roster_line(all[i as int])));
        }
        i += 1;
    }
    assert(all.take(i as int) =~= all);
    lines
}

/// The lines of a roster, each but the last followed by a line break.
pub open spec fn spec_joined(lines: Seq<Seq<char>>) -> Seq<char>
    decreases lines.len(),
{
    if lines.len() == 0 {
        Seq::empty()
    } else if lines.len() == 1 {
        lines[0]
    } else {
        spec_joined(lines.drop_last()) + "\n"@ + lines.last()
    }
}

/// The text of a roster: the heading and the lines, or `empty_notice` where
/// there is no line.
pub open spec fn spec_roster_text(lines: Seq<Seq<char>>, empty_notice: Seq<char>) -> Seq<char> {
    if lines.len() == 0 {
        empty_notice
    } else {
        "Employees:\n\n"@ + spec_joined(lines)
    }
}

/// The text of a roster: the heading and the lines, or `empty_notice` where
/// there is no line.
pub fn roster_text(lines: &Vec<String>, empty_notice: &str) -> (res: String)
    ensures
        res@ == spec_roster_text(lines.deep_view(), empty_notice@),
{
    if lines.len() == 0 {
        return String::from_str(empty_notice);
    }
    let ghost all = lines.deep_view();
    let mut text = String::from_str("Employees:\n\n");
    text.append(lines[0].as_str());
    let mut i: usize = 1;
    assert(all.take(1) =~= seq![all[0]]);
    while i < lines.len()
        invariant
            1 <= i <= lines.len(),
            all == lines.deep_view(),
            text@ == "Employees:\n\n"@ + spec_joined(all.take(i as int)),
        decreases lines.len() - i,
    {
        assert(all.take(i + 1).drop_last() =~= all.take(i as int));
        text.append("\n");
        text.append(lines[i].as_str());
        assert(text@ =~= "Employees:\n\n"@ + spec_joined(all.take(i + 1)));
        i += 1;
    }
    assert(all.take(i as int) =~= all);
    text
}

} // verus!
