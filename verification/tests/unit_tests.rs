// Tabs, palettes, records, configuration and the small helpers around them.
use lf11a_project_frontend::app::Tab;
use lf11a_project_frontend::cache::{count_in_department, employee_name};
use lf11a_project_frontend::colors::{Material3Colors, Rgb};
use lf11a_project_frontend::models::{
    CreateDepartmentRequest, CreateEmployeeRequest, CreateSalaryGradeRequest, Department,
    Employee, Salary, SalaryGrade, UpdateDepartmentRequest, UpdateEmployeeRequest,
    UpdateSalaryGradeRequest,
};
use lf11a_project_frontend::text::full_name;

fn amount(value: f64) -> Salary {
    Salary::from_bits(value.to_bits())
}

fn value(amount: Salary) -> f64 {
    f64::from_bits(amount.bits)
}

fn parsed(text: &str) -> Option<Salary> {
    text.parse::<f64>().ok().map(amount)
}

fn employee(id: &str, first: &str, last: &str, email: &str, role: &str, dept: Option<&str>) -> Employee {
    Employee {
        id: id.to_string(),
        first_name: first.to_string(),
        last_name: last.to_string(),
        email: email.to_string(),
        role: role.to_string(),
        active: true,
        department_id: dept.map(|d| d.to_string()),
        manager_id: None,
        salary_grade_id: None,
        hire_date: None,
        created_at: None,
        updated_at: None,
        deleted_at: None,
    }
}

// ========== Tab Tests ==========

#[test]
fn test_tab_enum_equality() {
    assert_eq!(Tab::Departments, Tab::Departments);
    assert_eq!(Tab::Employees, Tab::Employees);
    assert_eq!(Tab::SalaryGrades, Tab::SalaryGrades);
    assert_ne!(Tab::Departments, Tab::Employees);
    assert_ne!(Tab::Employees, Tab::SalaryGrades);
}

#[test]
fn tests_test_tab_clone() {
    let tab = Tab::Departments;
    let cloned = tab;
    assert_eq!(tab, cloned);
}

#[test]
fn tests_test_tab_copy() {
    let tab1 = Tab::Employees;
    let tab2 = tab1;
    assert_eq!(tab1, tab2);
}

// ========== Material3Colors Tests ==========

#[test]
fn tests_test_material3_colors_default() {
    let colors = Material3Colors::default();

    assert_eq!(colors.primary, Rgb::from_rgb(208, 188, 255));
    assert_eq!(colors.on_primary, Rgb::from_rgb(56, 30, 114));

    assert_eq!(colors.surface, Rgb::from_rgb(20, 18, 24));
    assert_eq!(colors.on_surface, Rgb::from_rgb(230, 225, 230));

    assert_eq!(colors.error, Rgb::from_rgb(242, 184, 181));

    assert_eq!(colors.success, Rgb::from_rgb(129, 199, 132));
}

#[test]
fn tests_test_material3_colors_clone() {
    let colors = Material3Colors::default();
    let cloned = colors;

    assert_eq!(colors.primary, cloned.primary);
    assert_eq!(colors.surface, cloned.surface);
    assert_eq!(colors.error, cloned.error);
}

#[test]
fn tests_test_material3_colors_copy() {
    let colors = Material3Colors::default();
    let copied = colors;

    assert_eq!(colors.primary, copied.primary);
    assert_eq!(colors.secondary, copied.secondary);
}

// ========== Department Model Tests ==========

#[test]
fn tests_test_department_creation() {
    let dept = Department {
        id: "dept-1".to_string(),
        name: "Engineering".to_string(),
        head_id: Some("emp-1".to_string()),
        created_at: None,
        updated_at: None,
    };

    assert_eq!(dept.id, "dept-1");
    assert_eq!(dept.name, "Engineering");
    assert_eq!(dept.head_id, Some("emp-1".to_string()));
}

#[test]
fn tests_test_department_without_head() {
    let dept = Department {
        id: "dept-2".to_string(),
        name: "Marketing".to_string(),
        head_id: None,
        created_at: None,
        updated_at: None,
    };

    assert!(dept.head_id.is_none());
}

#[test]
fn tests_test_create_department_request() {
    let req =
        CreateDepartmentRequest { name: "Sales".to_string(), head_id: Some("emp-5".to_string()) };

    assert_eq!(req.name, "Sales");
    assert_eq!(req.head_id, Some("emp-5".to_string()));
}

#[test]
fn test_create_department_request_default() {
    let req = CreateDepartmentRequest::default();

    assert!(req.name.is_empty());
    assert!(req.head_id.is_none());
}

#[test]
fn test_update_department_request() {
    let req = UpdateDepartmentRequest { name: Some("Updated Dept".to_string()), head_id: None };

    assert_eq!(req.name, Some("Updated Dept".to_string()));
    assert!(req.head_id.is_none());
}

// ========== Employee Model Tests ==========

#[test]
fn tests_test_employee_creation() {
    let emp = Employee {
        id: "emp-1".to_string(),
        first_name: "John".to_string(),
        last_name: "Doe".to_string(),
        email: "john.doe@example.com".to_string(),
        role: "Developer".to_string(),
        active: true,
        department_id: Some("dept-1".to_string()),
        manager_id: None,
        salary_grade_id: Some("grade-1".to_string()),
        hire_date: None,
        created_at: None,
        updated_at: None,
        deleted_at: None,
    };

    assert_eq!(emp.first_name, "John");
    assert_eq!(emp.last_name, "Doe");
    assert!(emp.active);
    assert_eq!(emp.department_id, Some("dept-1".to_string()));
}

#[test]
fn test_employee_full_name() {
    let emp = employee("emp-1", "Jane", "Smith", "jane.smith@example.com", "Manager", None);

    let name = full_name(&emp.first_name, &emp.last_name);
    assert_eq!(name, "Jane Smith");
    assert_eq!(name, format!("{} {}", emp.first_name, emp.last_name));
}

#[test]
fn tests_test_create_employee_request() {
    let req = CreateEmployeeRequest {
        first_name: "Alice".to_string(),
        last_name: "Johnson".to_string(),
        email: "alice@example.com".to_string(),
        department_id: Some("dept-1".to_string()),
        manager_id: Some("emp-1".to_string()),
        role: Some("Analyst".to_string()),
        salary_grade_id: None,
        hire_date: None,
    };

    assert_eq!(req.first_name, "Alice");
    assert_eq!(req.role, Some("Analyst".to_string()));
}

#[test]
fn test_create_employee_request_default() {
    let req = CreateEmployeeRequest::default();

    assert!(req.first_name.is_empty());
    assert!(req.last_name.is_empty());
    assert!(req.email.is_empty());
    assert!(req.department_id.is_none());
}

#[test]
fn test_update_employee_request() {
    let req = UpdateEmployeeRequest {
        first_name: Some("Updated".to_string()),
        last_name: Some("Name".to_string()),
        email: None,
        role: Some("Senior Developer".to_string()),
        active: Some(true),
        department_id: None,
        manager_id: None,
        salary_grade_id: None,
        hire_date: None,
    };

    assert_eq!(req.first_name, Some("Updated".to_string()));
    assert_eq!(req.role, Some("Senior Developer".to_string()));
    assert!(req.email.is_none());
}

// ========== Salary Grade Model Tests ==========

#[test]
fn tests_test_salary_grade_creation() {
    let grade = SalaryGrade {
        id: "grade-1".to_string(),
        code: "A1".to_string(),
        base_salary: amount(50000.0),
        description: Some("Entry level".to_string()),
        created_at: None,
    };

    assert_eq!(grade.code, "A1");
    assert_eq!(value(grade.base_salary), 50000.0);
    assert_eq!(grade.description, Some("Entry level".to_string()));
}

#[test]
fn test_salary_grade_formatting() {
    let grade = SalaryGrade {
        id: "grade-2".to_string(),
        code: "B2".to_string(),
        base_salary: amount(75000.50),
        description: None,
        created_at: None,
    };

    let formatted = format!("{} (${:.2})", grade.code, value(grade.base_salary));
    assert_eq!(formatted, "B2 ($75000.50)");
}

#[test]
fn tests_test_create_salary_grade_request() {
    let req = CreateSalaryGradeRequest {
        code: "C3".to_string(),
        base_salary: amount(100000.0),
        description: Some("Senior level".to_string()),
    };

    assert_eq!(req.code, "C3");
    assert_eq!(value(req.base_salary), 100000.0);
}

#[test]
fn test_create_salary_grade_request_default() {
    let req = CreateSalaryGradeRequest::default();

    assert!(req.code.is_empty());
    assert_eq!(value(req.base_salary), 0.0);
    assert!(req.description.is_none());
}

#[test]
fn test_update_salary_grade_request() {
    let req = UpdateSalaryGradeRequest {
        code: Some("D4".to_string()),
        base_salary: Some(amount(120000.0)),
        description: Some("Director level".to_string()),
    };

    assert_eq!(req.code, Some("D4".to_string()));
    assert_eq!(req.base_salary.map(value), Some(120000.0));
}

// ========== UI State Tests ==========

#[test]
fn test_selected_index_none_by_default() {
    let selected: Option<usize> = None;
    assert!(selected.is_none());
}

#[test]
fn test_selected_index_some() {
    let selected: Option<usize> = Some(5);
    assert!(selected.is_some());
    assert_eq!(selected, Some(5));
}

// ========== Form Field Tests ==========

#[test]
fn test_empty_string_is_empty() {
    let field = String::new();
    assert!(field.is_empty());
}

#[test]
fn test_non_empty_string() {
    let field = "Department Name".to_string();
    assert!(!field.is_empty());
    assert_eq!(field.len(), 15);
}

#[test]
fn test_string_clear() {
    let mut field = "Some value".to_string();
    field.clear();
    assert!(field.is_empty());
}

// ========== Employee Initials Tests ==========

#[test]
fn test_employee_initials() {
    let first_name = "John";
    let last_name = "Doe";

    let initials = format!(
        "{}{}",
        first_name.chars().next().unwrap_or('?'),
        last_name.chars().next().unwrap_or('?')
    );

    assert_eq!(initials, "JD");
}

#[test]
fn test_employee_initials_empty_names() {
    let first_name = "";
    let last_name = "";

    let initials = format!(
        "{}{}",
        first_name.chars().next().unwrap_or('?'),
        last_name.chars().next().unwrap_or('?')
    );

    assert_eq!(initials, "??");
}

// ========== Department Employee Count Tests ==========

#[test]
fn test_count_employees_in_department() {
    let dept_id = "dept-1".to_string();
    let employees = vec![
        employee("emp-1", "A", "A", "a@example.com", "Dev", Some("dept-1")),
        employee("emp-2", "B", "B", "b@example.com", "Dev", Some("dept-1")),
        employee("emp-3", "C", "C", "c@example.com", "Dev", Some("dept-2")),
    ];

    let count = count_in_department(&employees, &dept_id);
    assert_eq!(count, 2);
    assert_eq!(
        count,
        employees.iter().filter(|e| e.department_id.as_ref() == Some(&dept_id)).count()
    );
}

// ========== Salary Parsing Tests ==========

#[test]
fn test_salary_parsing_valid() {
    let salary_str = "50000.0";
    let salary: f64 = value(Salary::or_zero(parsed(salary_str)));
    assert_eq!(salary, 50000.0);
}

#[test]
fn test_salary_parsing_invalid() {
    let salary_str = "invalid";
    let salary: f64 = value(Salary::or_zero(parsed(salary_str)));
    assert_eq!(salary, 0.0);
}

#[test]
fn test_salary_parsing_empty() {
    let salary_str = "";
    let salary: f64 = value(Salary::or_zero(parsed(salary_str)));
    assert_eq!(salary, 0.0);
}

// ========== Head Name Resolution Tests ==========

#[test]
fn test_find_department_head() {
    let head_id = Some("emp-1".to_string());
    let employees = vec![employee("emp-1", "John", "Doe", "john@example.com", "Manager", None)];

    let head_name =
        employee_name(&employees, &head_id).unwrap_or_else(|| "No head assigned".to_string());

    assert_eq!(head_name, "John Doe");
}

#[test]
fn test_find_department_head_not_found() {
    let head_id: Option<String> = None;
    let employees: Vec<Employee> = vec![];

    let head_name =
        employee_name(&employees, &head_id).unwrap_or_else(|| "No head assigned".to_string());

    assert_eq!(head_name, "No head assigned");
}

// ========== Colour Tests ==========

#[test]
fn tests_test_color32_from_rgb() {
    let color = Rgb::from_rgb(255, 128, 64);
    assert_eq!(color.r(), 255);
    assert_eq!(color.g(), 128);
    assert_eq!(color.b(), 64);
}

#[test]
fn tests_test_color32_equality() {
    let c1 = Rgb::from_rgb(100, 100, 100);
    let c2 = Rgb::from_rgb(100, 100, 100);
    let c3 = Rgb::from_rgb(200, 200, 200);

    assert_eq!(c1, c2);
    assert_ne!(c1, c3);
}
