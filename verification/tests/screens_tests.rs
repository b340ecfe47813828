// What the tabs, the forms and the dialogs show.
use lf11a_project_frontend::app::PersonnelApp;
use lf11a_project_frontend::cache::{
    count_with_grade, department_name, employees_in_department, employees_with_grade,
    find_department, find_employee, find_salary_grade, roster_line, roster_text,
};
use lf11a_project_frontend::config::Config;
use lf11a_project_frontend::dialogs::{ConfirmAction, EditDialog, FormKind};
use lf11a_project_frontend::gateway::ApiClient;
use lf11a_project_frontend::models::{Department, Employee, Salary, SalaryGrade};
use lf11a_project_frontend::screens::{amount_at, grade_label};
use lf11a_project_frontend::text::{concat2, concat3, decimal, or_text};

fn department(id: &str, name: &str, head: Option<&str>) -> Department {
    Department {
        id: id.to_string(),
        name: name.to_string(),
        head_id: head.map(|h| h.to_string()),
        created_at: None,
        updated_at: None,
    }
}

fn employee(id: &str, first: &str, last: &str, role: &str, dept: Option<&str>, grade: Option<&str>) -> Employee {
    Employee {
        id: id.to_string(),
        first_name: first.to_string(),
        last_name: last.to_string(),
        email: format!("{}@example.com", id),
        role: role.to_string(),
        active: true,
        department_id: dept.map(|s| s.to_string()),
        manager_id: None,
        salary_grade_id: grade.map(|s| s.to_string()),
        hire_date: None,
        created_at: None,
        updated_at: None,
        deleted_at: None,
    }
}

fn grade(id: &str, code: &str, salary: f64, description: Option<&str>) -> SalaryGrade {
    SalaryGrade {
        id: id.to_string(),
        code: code.to_string(),
        base_salary: Salary::from_bits(salary.to_bits()),
        description: description.map(|s| s.to_string()),
        created_at: None,
    }
}

fn amounts(app: &PersonnelApp) -> Vec<String> {
    app.salary_grades.iter().map(|g| format!("{:.2}", f64::from_bits(g.base_salary.bits))).collect()
}

fn staffed() -> PersonnelApp {
    let mut app = PersonnelApp::new(ApiClient::new(Config::default()));
    app.departments = vec![
        department("d-1", "Engineering", Some("e-1")),
        department("d-2", "Sales", None),
        department("d-3", "Ghosts", Some("e-404")),
    ];
    app.employees = vec![
        employee("e-1", "John", "Doe", "DepartmentHead", Some("d-1"), Some("g-1")),
        employee("e-2", "Jane", "Smith", "Employee", Some("d-1"), Some("g-2")),
        employee("e-3", "Max", "Power", "Employee", Some("d-2"), None),
        employee("e-4", "Eve", "Lost", "Admin", Some("d-9"), Some("g-9")),
    ];
    app.salary_grades =
        vec![grade("g-1", "E1", 50000.0, Some("Entry")), grade("g-2", "B2", 75000.5, None)];
    app
}

#[test]
fn empty_snapshots_show_a_notice() {
    let app = PersonnelApp::new(ApiClient::new(Config::default()));
    let none: Vec<String> = Vec::new();
    let departments = app.show_departments();
    assert_eq!(departments.empty_notice, Some("No departments yet".to_string()));
    assert!(departments.cards.is_empty());
    let employees = app.show_employees(&none);
    assert_eq!(employees.empty_notice, Some("No employees yet".to_string()));
    assert!(employees.cards.is_empty());
    let grades = app.show_salary_grades(&none);
    assert_eq!(grades.empty_notice, Some("No salary grades yet".to_string()));
    assert!(grades.cards.is_empty());
}

#[test]
fn department_cards() {
    let app = staffed();
    let screen = app.show_departments();
    assert_eq!(screen.empty_notice, None);
    assert_eq!(screen.cards.len(), 3);
    assert_eq!(screen.cards[0].id, "d-1");
    assert_eq!(screen.cards[0].name, "Engineering");
    assert_eq!(screen.cards[0].head_line, "👔 Head: John Doe");
    assert_eq!(screen.cards[0].count_line, "👥 2 employee(s)");
    assert_eq!(screen.cards[0].employee_count, 2);
    assert_eq!(screen.cards[1].head_line, "👔 Head: No head assigned");
    assert_eq!(screen.cards[1].count_line, "👥 1 employee(s)");
    assert_eq!(screen.cards[2].head_line, "👔 Head: No head assigned");
    assert_eq!(screen.cards[2].count_line, "👥 0 employee(s)");
    assert_eq!(screen.cards[2].employee_count, 0);
}

#[test]
fn employee_cards() {
    let app = staffed();
    let screen = app.show_employees(&amounts(&app));
    assert_eq!(screen.empty_notice, None);
    assert_eq!(screen.cards.len(), 4);
    let first = &screen.cards[0];
    assert_eq!(first.id, "e-1");
    assert_eq!(first.name, "John Doe");
    assert_eq!(first.email, "e-1@example.com");
    assert_eq!(first.role_line, "Role: DepartmentHead");
    assert_eq!(first.dept_line, "Dept: Engineering");
    assert_eq!(first.grade_line, "Grade: E1 - $50000.00");
    assert_eq!(screen.cards[1].grade_line, "Grade: B2 - $75000.50");
    assert_eq!(screen.cards[2].dept_line, "Dept: Sales");
    assert_eq!(screen.cards[2].grade_line, "Grade: No grade");
    assert_eq!(screen.cards[3].dept_line, "Dept: No department");
    assert_eq!(screen.cards[3].grade_line, "Grade: No grade");
}

#[test]
fn employee_cards_with_too_few_amounts() {
    let app = staffed();
    let screen = app.show_employees(&vec!["50000.00".to_string()]);
    assert_eq!(screen.cards[0].grade_line, "Grade: E1 - $50000.00");
    assert_eq!(screen.cards[1].grade_line, "Grade: B2 - $");
}

#[test]
fn salary_grade_cards() {
    let mut app = staffed();
    app.employees.push(employee("e-5", "Al", "So", "Employee", None, Some("g-1")));
    let screen = app.show_salary_grades(&amounts(&app));
    assert_eq!(screen.cards.len(), 2);
    assert_eq!(screen.cards[0].code, "E1");
    assert_eq!(screen.cards[0].amount_line, "$50000.00");
    assert_eq!(screen.cards[0].description, "Entry");
    assert_eq!(screen.cards[0].count_line, "2 employees");
    assert_eq!(screen.cards[0].employee_count, 2);
    assert_eq!(screen.cards[1].amount_line, "$75000.50");
    assert_eq!(screen.cards[1].description, "No description");
    assert_eq!(screen.cards[1].count_line, "1 employee");
    app.employees.clear();
    let screen = app.show_salary_grades(&amounts(&app));
    assert_eq!(screen.cards[0].count_line, "0 employees");
}

#[test]
fn delete_buttons_stage_a_confirmation() {
    let mut app = staffed();
    app.request_delete_department(0);
    match &app.confirm_dialog {
        Some(ConfirmAction::DeleteDepartment { id, name, employee_count }) => {
            assert_eq!(id, "d-1");
            assert_eq!(name, "Engineering");
            assert_eq!(*employee_count, 2);
        }
        other => panic!("unexpected dialog {:?}", other),
    }
    app.request_delete_employee(1);
    match &app.confirm_dialog {
        Some(ConfirmAction::DeleteEmployee { id, name }) => {
            assert_eq!(id, "e-2");
            assert_eq!(name, "Jane Smith");
        }
        other => panic!("unexpected dialog {:?}", other),
    }
    app.request_delete_salary_grade(0);
    match &app.confirm_dialog {
        Some(ConfirmAction::DeleteSalaryGrade { id, code, employee_count }) => {
            assert_eq!(id, "g-1");
            assert_eq!(code, "E1");
            assert_eq!(*employee_count, 1);
        }
        other => panic!("unexpected dialog {:?}", other),
    }
}

#[test]
fn a_click_beyond_the_snapshot_changes_nothing() {
    let mut app = staffed();
    app.request_delete_department(3);
    app.request_delete_employee(4);
    app.request_delete_salary_grade(2);
    assert!(app.confirm_dialog.is_none());
    app.start_edit_department(3);
    app.start_edit_employee(99);
    app.start_edit_salary_grade(2, "1".to_string());
    assert!(app.edit_dialog.is_none());
    assert!(app.dept_name.is_empty() && app.emp_first_name.is_empty());
    assert!(app.grade_salary.is_empty());
}

#[test]
fn edit_buttons_fill_the_form() {
    let mut app = staffed();
    app.start_edit_department(0);
    assert_eq!(app.dept_name, "Engineering");
    assert_eq!(app.dept_head_id, "e-1");
    match &app.edit_dialog {
        Some(EditDialog::EditDepartment { id, old_head_id }) => {
            assert_eq!(id, "d-1");
            assert_eq!(old_head_id, &Some("e-1".to_string()));
        }
        other => panic!("unexpected dialog {:?}", other),
    }
    app.start_edit_department(1);
    assert_eq!(app.dept_name, "Sales");
    assert_eq!(app.dept_head_id, "");

    app.start_edit_employee(0);
    assert_eq!(app.emp_first_name, "John");
    assert_eq!(app.emp_last_name, "Doe");
    assert_eq!(app.emp_email, "e-1@example.com");
    assert_eq!(app.emp_role, "DepartmentHead");
    assert_eq!(app.emp_dept_id, "d-1");
    assert_eq!(app.emp_manager_id, "");
    assert_eq!(app.emp_salary_grade_id, "g-1");
    assert!(matches!(&app.edit_dialog, Some(EditDialog::EditEmployee { id }) if id == "e-1"));

    app.start_edit_salary_grade(1, "75000.5".to_string());
    assert_eq!(app.grade_code, "B2");
    assert_eq!(app.grade_salary, "75000.5");
    assert_eq!(app.grade_desc, "");
    assert!(matches!(&app.edit_dialog, Some(EditDialog::EditSalaryGrade { id }) if id == "g-2"));
}

#[test]
fn create_buttons_open_an_empty_form() {
    let mut app = staffed();
    app.start_edit_department(0);
    app.start_create_department();
    assert!(app.dept_name.is_empty() && app.dept_head_id.is_empty());
    assert!(matches!(app.edit_dialog, Some(EditDialog::CreateDepartment)));
    app.start_edit_employee(0);
    app.start_create_employee();
    assert!(app.emp_first_name.is_empty() && app.emp_salary_grade_id.is_empty());
    assert!(matches!(app.edit_dialog, Some(EditDialog::CreateEmployee)));
    app.start_edit_salary_grade(0, "5".to_string());
    app.start_create_salary_grade();
    assert!(app.grade_code.is_empty() && app.grade_salary.is_empty());
    assert!(matches!(app.edit_dialog, Some(EditDialog::CreateSalaryGrade)));
}

#[test]
fn department_form() {
    let mut app = staffed();
    let create = app.show_department_form(&EditDialog::CreateDepartment);
    assert_eq!(create.action_label, "Create");
    assert_eq!(create.head.label, "No head assigned");
    assert!(create.head.none_selected);
    assert_eq!(create.head.choices.len(), 4);
    assert_eq!(create.head.choices[0].id, "e-1");
    assert_eq!(create.head.choices[0].label, "👤 John Doe - DepartmentHead");
    assert!(create.head.choices.iter().all(|c| !c.selected));

    app.dept_head_id = "e-2".to_string();
    let edit = app.show_department_form(&EditDialog::EditDepartment {
        id: "d-1".to_string(),
        old_head_id: None,
    });
    assert_eq!(edit.action_label, "Update");
    assert_eq!(edit.head.label, "Jane Smith (Employee)");
    assert!(!edit.head.none_selected);
    assert!(edit.head.choices[1].selected);
    assert!(!edit.head.choices[0].selected);

    app.dept_head_id = "nobody".to_string();
    let unknown = app.show_department_form(&EditDialog::CreateDepartment);
    assert_eq!(unknown.head.label, "Select employee...");
}

#[test]
fn employee_form() {
    let mut app = staffed();
    let empty = app.show_employee_form(&EditDialog::CreateEmployee, &amounts(&app));
    assert_eq!(empty.action_label, "Create");
    assert_eq!(empty.role.label, "Select role...");
    let roles: Vec<&str> = empty.role.choices.iter().map(|c| c.id.as_str()).collect();
    assert_eq!(roles, vec!["Employee", "DepartmentHead", "DeputyHead", "Admin"]);
    assert_eq!(empty.department.label, "No department");
    assert_eq!(empty.manager.label, "No manager");
    assert_eq!(empty.salary_grade.label, "No salary grade");
    assert!(empty.department.none_selected && empty.manager.none_selected);
    assert_eq!(empty.department.choices[1].label, "Sales");
    assert_eq!(empty.manager.choices[2].label, "Max Power - Employee");
    assert_eq!(empty.salary_grade.choices[1].label, "B2 - $75000.50");
    assert_eq!(empty.salary_grade.choices[1].id, "g-2");

    app.emp_role = "Admin".to_string();
    app.emp_dept_id = "d-2".to_string();
    app.emp_manager_id = "e-1".to_string();
    app.emp_salary_grade_id = "g-1".to_string();
    let filled = app
        .show_employee_form(&EditDialog::EditEmployee { id: "e-3".to_string() }, &amounts(&app));
    assert_eq!(filled.action_label, "Update");
    assert_eq!(filled.role.label, "Admin");
    assert!(filled.role.choices[3].selected && !filled.role.choices[0].selected);
    assert_eq!(filled.department.label, "Sales");
    assert!(filled.department.choices[1].selected);
    assert_eq!(filled.manager.label, "John Doe");
    assert!(filled.manager.choices[0].selected);
    assert_eq!(filled.salary_grade.label, "E1 - $50000.00");
    assert!(filled.salary_grade.choices[0].selected);

    app.emp_dept_id = "d-x".to_string();
    app.emp_manager_id = "e-x".to_string();
    app.emp_salary_grade_id = "g-x".to_string();
    let unknown = app.show_employee_form(&EditDialog::CreateEmployee, &amounts(&app));
    assert_eq!(unknown.department.label, "Select...");
    assert_eq!(unknown.manager.label, "Select...");
    assert_eq!(unknown.salary_grade.label, "Select...");
}

#[test]
fn salary_grade_form() {
    let app = staffed();
    assert_eq!(app.show_salary_grade_form(&EditDialog::CreateSalaryGrade), "Create");
    assert_eq!(
        app.show_salary_grade_form(&EditDialog::EditSalaryGrade { id: "g-1".to_string() }),
        "Update"
    );
}

#[test]
fn submitting_the_department_form() {
    let mut app = staffed();
    app.edit_dialog = Some(EditDialog::CreateDepartment);
    app.submit_department_form(&EditDialog::CreateDepartment);
    assert!(app.confirm_dialog.is_none());
    assert!(app.edit_dialog.is_some());

    app.dept_name = "Research".to_string();
    app.submit_department_form(&EditDialog::CreateDepartment);
    assert!(matches!(&app.confirm_dialog, Some(ConfirmAction::CreateDepartment { name }) if name == "Research"));
    assert!(app.edit_dialog.is_none());

    app.dept_head_id = "e-2".to_string();
    app.submit_department_form(&EditDialog::EditDepartment {
        id: "d-1".to_string(),
        old_head_id: Some("e-1".to_string()),
    });
    match &app.confirm_dialog {
        Some(ConfirmAction::UpdateDepartment {
            id,
            name,
            old_head_id,
            old_head_name,
            new_head_id,
            new_head_name,
        }) => {
            assert_eq!(id, "d-1");
            assert_eq!(name, "Research");
            assert_eq!(old_head_id, &Some("e-1".to_string()));
            assert_eq!(old_head_name, &Some("John Doe".to_string()));
            assert_eq!(new_head_id, &Some("e-2".to_string()));
            assert_eq!(new_head_name, &Some("Jane Smith".to_string()));
        }
        other => panic!("unexpected dialog {:?}", other),
    }

    app.dept_head_id = String::new();
    app.submit_department_form(&EditDialog::EditDepartment {
        id: "d-1".to_string(),
        old_head_id: Some("e-404".to_string()),
    });
    match &app.confirm_dialog {
        Some(ConfirmAction::UpdateDepartment { old_head_name, new_head_id, new_head_name, .. }) => {
            assert_eq!(old_head_name, &None);
            assert_eq!(new_head_id, &None);
            assert_eq!(new_head_name, &None);
        }
        other => panic!("unexpected dialog {:?}", other),
    }
}

#[test]
fn submitting_the_employee_form() {
    let mut app = staffed();
    app.emp_first_name = "Ann".to_string();
    app.submit_employee_form(&EditDialog::CreateEmployee);
    assert!(app.confirm_dialog.is_none());
    app.emp_first_name = String::new();
    app.emp_last_name = "Lee".to_string();
    app.submit_employee_form(&EditDialog::CreateEmployee);
    assert!(app.confirm_dialog.is_none());

    app.emp_first_name = "Ann".to_string();
    app.submit_employee_form(&EditDialog::CreateEmployee);
    assert!(matches!(&app.confirm_dialog, Some(ConfirmAction::CreateEmployee { name }) if name == "Ann Lee"));
    app.submit_employee_form(&EditDialog::EditEmployee { id: "e-1".to_string() });
    assert!(matches!(&app.confirm_dialog, Some(ConfirmAction::UpdateEmployee { id, name }) if id == "e-1" && name == "Ann Lee"));
    assert!(app.edit_dialog.is_none());
}

#[test]
fn submitting_the_salary_grade_form() {
    let mut app = staffed();
    app.submit_salary_grade_form(&EditDialog::CreateSalaryGrade);
    assert!(app.confirm_dialog.is_none());
    app.grade_code = "E5".to_string();
    app.submit_salary_grade_form(&EditDialog::CreateSalaryGrade);
    assert!(matches!(&app.confirm_dialog, Some(ConfirmAction::CreateSalaryGrade { code }) if code == "E5"));
    app.submit_salary_grade_form(&EditDialog::EditSalaryGrade { id: "g-1".to_string() });
    assert!(matches!(&app.confirm_dialog, Some(ConfirmAction::UpdateSalaryGrade { id, code }) if id == "g-1" && code == "E5"));
}

#[test]
fn cancelling_a_form_closes_and_empties_it() {
    let mut app = staffed();
    app.start_edit_department(0);
    app.cancel_department_form();
    assert!(app.edit_dialog.is_none() && app.dept_name.is_empty() && app.dept_head_id.is_empty());
    app.start_edit_employee(0);
    app.cancel_employee_form();
    assert!(app.edit_dialog.is_none() && app.emp_first_name.is_empty() && app.emp_role.is_empty());
    app.start_edit_salary_grade(0, "50000".to_string());
    app.cancel_salary_grade_form();
    assert!(app.edit_dialog.is_none() && app.grade_code.is_empty() && app.grade_salary.is_empty());
}

#[test]
fn edit_dialog_headings() {
    let mut app = staffed();
    assert!(app.show_edit_dialog().is_none());
    app.start_create_department();
    let prompt = app.show_edit_dialog().unwrap();
    assert_eq!(prompt.title, "➕ Create Department");
    assert_eq!(prompt.form, FormKind::Department);
    app.start_edit_employee(0);
    let prompt = app.show_edit_dialog().unwrap();
    assert_eq!(prompt.title, "✏\u{fe0f} Edit Employee");
    assert_eq!(prompt.form, FormKind::Employee);
    assert_eq!(EditDialog::CreateEmployee.title(), "➕ Create Employee");
    assert_eq!(EditDialog::CreateSalaryGrade.title(), "➕ Create Salary Grade");
    assert_eq!(
        EditDialog::EditDepartment { id: String::new(), old_head_id: None }.title(),
        "✏\u{fe0f} Edit Department"
    );
    assert_eq!(
        EditDialog::EditSalaryGrade { id: String::new() }.title(),
        "✏\u{fe0f} Edit Salary Grade"
    );
    assert_eq!(EditDialog::EditSalaryGrade { id: String::new() }.form(), FormKind::SalaryGrade);
}

#[test]
fn confirmation_of_a_deletion() {
    let mut app = staffed();
    assert!(app.show_confirm_dialog().is_none());
    app.request_delete_department(0);
    let prompt = app.show_confirm_dialog().unwrap();
    assert_eq!(prompt.title, "🗑 Delete Department");
    assert!(prompt.destructive);
    assert_eq!(prompt.confirm_label, "Delete");
    assert_eq!(
        prompt.message,
        "Are you sure you want to delete the department \"Engineering\"?\n\n\u{26a0}\u{fe0f} Warning: 2 employee(s) are assigned to this department.\nThey will be left without a department assignment."
    );
    app.request_delete_department(2);
    assert_eq!(
        app.show_confirm_dialog().unwrap().message,
        "Are you sure you want to delete the department \"Ghosts\"?"
    );
    let grade = ConfirmAction::DeleteSalaryGrade {
        id: "g".to_string(),
        code: "E1".to_string(),
        employee_count: 12,
    };
    assert_eq!(grade.title(), "🗑 Delete Salary Grade");
    assert_eq!(
        grade.message(),
        "Are you sure you want to delete salary grade \"E1\"?\n\n\u{26a0}\u{fe0f} Warning: 12 employee(s) are using this salary grade.\nThey will be left without a salary grade assignment."
    );
    let unused = ConfirmAction::DeleteSalaryGrade {
        id: "g".to_string(),
        code: "E1".to_string(),
        employee_count: 0,
    };
    assert_eq!(unused.message(), "Are you sure you want to delete salary grade \"E1\"?");
    let person = ConfirmAction::DeleteEmployee { id: "e".to_string(), name: "Jane Smith".to_string() };
    assert_eq!(person.title(), "🗑 Delete Employee");
    assert!(person.destructive());
    assert_eq!(
        person.message(),
        "Are you sure you want to delete the employee \"Jane Smith\"?\n\n\u{26a0}\u{fe0f} This action cannot be undone.\nAll associated records will be affected."
    );
}

#[test]
fn confirmation_of_an_update_or_a_creation() {
    let update = |old: Option<&str>, new: Option<&str>| ConfirmAction::UpdateDepartment {
        id: "d".to_string(),
        name: "Ops".to_string(),
        old_head_id: None,
        old_head_name: old.map(|s| s.to_string()),
        new_head_id: None,
        new_head_name: new.map(|s| s.to_string()),
    };
    let prompt = update(Some("Ann"), Some("Bob")).prompt();
    assert_eq!(prompt.title, "✏ Update Department");
    assert!(!prompt.destructive);
    assert_eq!(prompt.confirm_label, "Confirm");
    assert_eq!(
        prompt.message,
        "Update department \"Ops\"?\n\n👔 Head Change:\n• Previous head \"Ann\" will be demoted from department head role\n• New head \"Bob\" will be promoted to department head role"
    );
    assert_eq!(
        update(None, Some("Bob")).message(),
        "Update department \"Ops\"?\n\n👔 Head Assignment:\n• \"Bob\" will be promoted to department head role"
    );
    assert_eq!(
        update(Some("Ann"), None).message(),
        "Update department \"Ops\"?\n\n👔 Head Removal:\n• \"Ann\" will be demoted from department head role"
    );
    assert_eq!(update(Some("Ann"), Some("Ann")).message(), "Update department \"Ops\"?");
    assert_eq!(update(None, None).message(), "Update department \"Ops\"?");

    let employee = ConfirmAction::UpdateEmployee { id: "e".to_string(), name: "Ann Lee".to_string() };
    assert_eq!(employee.title(), "✏ Update Employee");
    assert_eq!(employee.message(), "Save changes to employee \"Ann Lee\"?");
    let grade = ConfirmAction::UpdateSalaryGrade { id: "g".to_string(), code: "E1".to_string() };
    assert_eq!(grade.title(), "✏ Update Salary Grade");
    assert_eq!(
        grade.message(),
        "Update salary grade \"E1\"?\n\n\u{2139}\u{fe0f} All employees with this grade will see the updated values."
    );
    let d = ConfirmAction::CreateDepartment { name: "Ops".to_string() };
    assert_eq!(d.title(), "➕ Create Department");
    assert_eq!(d.message(), "Create new department \"Ops\"?");
    let e = ConfirmAction::CreateEmployee { name: "Ann Lee".to_string() };
    assert_eq!(e.title(), "➕ Create Employee");
    assert_eq!(e.message(), "Create new employee \"Ann Lee\"?");
    let g = ConfirmAction::CreateSalaryGrade { code: "E1".to_string() };
    assert_eq!(g.title(), "➕ Create Salary Grade");
    assert_eq!(g.message(), "Create new salary grade \"E1\"?");
    assert!(!g.destructive());
    assert_eq!(g.clone().message(), g.message());
}

#[test]
fn lookups_in_a_snapshot() {
    let app = staffed();
    assert_eq!(find_department(&app.departments, &"d-2".to_string()), Some(1));
    assert_eq!(find_department(&app.departments, &"d-9".to_string()), None);
    assert_eq!(find_employee(&app.employees, &"e-4".to_string()), Some(3));
    assert_eq!(find_employee(&app.employees, &"".to_string()), None);
    assert_eq!(find_salary_grade(&app.salary_grades, &"g-1".to_string()), Some(0));
    assert_eq!(find_salary_grade(&Vec::new(), &"g-1".to_string()), None);
    assert_eq!(
        department_name(&app.departments, &Some("d-1".to_string())),
        Some("Engineering".to_string())
    );
    assert_eq!(department_name(&app.departments, &None), None);
    assert_eq!(department_name(&app.departments, &Some("d-9".to_string())), None);
    assert_eq!(count_with_grade(&app.employees, &"g-1".to_string()), 1);
    assert_eq!(count_with_grade(&app.employees, &"g-0".to_string()), 0);
}

#[test]
fn first_of_two_records_with_one_id_is_found() {
    let employees = vec![
        employee("e-1", "First", "One", "Employee", None, None),
        employee("e-1", "Second", "One", "Employee", None, None),
    ];
    assert_eq!(find_employee(&employees, &"e-1".to_string()), Some(0));
}

#[test]
fn rosters() {
    let app = staffed();
    assert_eq!(roster_line(&app.employees[0]), "John Doe (DepartmentHead)");
    let lines = employees_in_department(&app.employees, &"d-1".to_string());
    assert_eq!(lines, vec!["John Doe (DepartmentHead)", "Jane Smith (Employee)"]);
    assert_eq!(
        roster_text(&lines, "No employees in this department"),
        "Employees:\n\nJohn Doe (DepartmentHead)\nJane Smith (Employee)"
    );
    let none = employees_in_department(&app.employees, &"d-3".to_string());
    assert!(none.is_empty());
    assert_eq!(roster_text(&none, "No employees in this department"), "No employees in this department");
    let holders = employees_with_grade(&app.employees, &"g-2".to_string());
    assert_eq!(holders, vec!["Jane Smith (Employee)"]);
    assert_eq!(roster_text(&holders, "none"), "Employees:\n\nJane Smith (Employee)");
}

#[test]
fn texts() {
    assert_eq!(decimal(0), "0");
    assert_eq!(decimal(7), "7");
    assert_eq!(decimal(10), "10");
    assert_eq!(decimal(407), "407");
    assert_eq!(decimal(1234567890), "1234567890");
    assert_eq!(decimal(usize::MAX), usize::MAX.to_string());
    assert_eq!(concat2("ab", "cd"), "abcd");
    assert_eq!(concat3("a", "", "c"), "ac");
    assert_eq!(or_text(None, "fallback"), "fallback");
    assert_eq!(or_text(Some("text".to_string()), "fallback"), "text");
    assert_eq!(grade_label("E1", "50000.00"), "E1 - $50000.00");
    let amounts = vec!["1.00".to_string()];
    assert_eq!(amount_at(&amounts, 0), "1.00");
    assert_eq!(amount_at(&amounts, 1), "");
}

#[test]
fn dropdown_positions() {
    let mut app = staffed();
    let none = app.show_department_form(&EditDialog::CreateDepartment).head;
    assert_eq!(none.selected_position(), 0);
    assert_eq!(none.field_at(0), "");
    assert_eq!(none.field_at(1), "e-1");
    assert_eq!(none.field_at(4), "e-4");
    assert_eq!(none.field_at(5), "");
    app.dept_head_id = "e-3".to_string();
    let third = app.show_department_form(&EditDialog::CreateDepartment).head;
    assert_eq!(third.selected_position(), 3);
    assert_eq!(third.field_at(third.selected_position()), "e-3");
}
