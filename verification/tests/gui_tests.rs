// The client's state, its tabs and its palettes.
use lf11a_project_frontend::app::{PersonnelApp, Tab};
use lf11a_project_frontend::colors::{Material3Colors, Rgb};
use lf11a_project_frontend::config::Config;
use lf11a_project_frontend::gateway::ApiClient;

fn fresh() -> PersonnelApp {
    PersonnelApp::new(ApiClient::new(Config::default()))
}

#[test]
fn test_modules_exist() {
    let config = lf11a_project_frontend::config::Config::default();
    let api = lf11a_project_frontend::gateway::ApiClient::new(config);
    assert_eq!(api.config.api_prefix, "/api");
}

#[test]
fn test_tab_equality() {
    assert_eq!(Tab::Departments, Tab::Departments);
    assert_ne!(Tab::Departments, Tab::Employees);
    assert_ne!(Tab::Employees, Tab::SalaryGrades);
}

#[test]
fn mod_test_tab_clone() {
    let tab = Tab::Employees;
    let cloned = tab;
    assert_eq!(tab, cloned);
}

#[test]
fn mod_test_tab_copy() {
    let tab = Tab::SalaryGrades;
    let copied = tab;
    assert_eq!(tab, copied);
}

#[test]
fn test_tab_debug() {
    assert_eq!(format!("{:?}", Tab::Departments), "Departments");
    assert_eq!(format!("{:?}", Tab::Employees), "Employees");
    assert_eq!(format!("{:?}", Tab::SalaryGrades), "SalaryGrades");
}

#[test]
fn test_app_new() {
    let app = fresh();
    assert_eq!(app.current_tab, Tab::Departments);
    assert!(app.dept_name.is_empty());
    assert!(app.employees.is_empty());
}

#[test]
fn test_app_default() {
    let app = PersonnelApp::default();
    assert_eq!(app.current_tab, Tab::Departments);
}

#[test]
fn colors_test_material3_colors_default() {
    let colors = Material3Colors::default();

    assert_eq!(colors.primary, Rgb::from_rgb(208, 188, 255));
    assert_eq!(colors.on_primary, Rgb::from_rgb(56, 30, 114));

    assert_eq!(colors.surface, Rgb::from_rgb(20, 18, 24));
    assert_eq!(colors.on_surface, Rgb::from_rgb(230, 225, 230));

    assert_eq!(colors.error, Rgb::from_rgb(242, 184, 181));

    assert_eq!(colors.success, Rgb::from_rgb(129, 199, 132));
}

#[test]
fn colors_test_material3_colors_clone() {
    let colors = Material3Colors::default();
    let cloned = colors;

    assert_eq!(colors.primary, cloned.primary);
    assert_eq!(colors.surface, cloned.surface);
    assert_eq!(colors.error, cloned.error);
}

#[test]
fn colors_test_material3_colors_copy() {
    let colors = Material3Colors::default();
    let copied = colors;

    assert_eq!(colors.primary, copied.primary);
    assert_eq!(colors.secondary, copied.secondary);
}

#[test]
fn components_test_color32_from_rgb() {
    let color = Rgb::from_rgb(255, 128, 64);
    assert_eq!(color.r(), 255);
    assert_eq!(color.g(), 128);
    assert_eq!(color.b(), 64);
}

#[test]
fn components_test_color32_equality() {
    let c1 = Rgb::from_rgb(100, 100, 100);
    let c2 = Rgb::from_rgb(100, 100, 100);
    let c3 = Rgb::from_rgb(200, 200, 200);

    assert_eq!(c1, c2);
    assert_ne!(c1, c3);
}

#[test]
fn the_state_at_start() {
    let app = fresh();
    assert!(app.dark_mode);
    assert_eq!(app.colors.primary, Material3Colors::dark().primary);
    assert!(app.confirm_dialog.is_none());
    assert!(app.edit_dialog.is_none());
    assert!(app.departments.is_empty());
    assert!(app.salary_grades.is_empty());
    assert!(app.selected_dept.is_none());
    assert!(app.error_message.is_none());
    assert!(!app.dept_loading && !app.emp_loading && !app.grade_loading);
    assert_eq!(app.api.config.api_base_url, "http://localhost:8082");
}

#[test]
fn light_and_dark_palettes() {
    let light = Material3Colors::light();
    assert_eq!(light.primary, Rgb::from_rgb(103, 80, 164));
    assert_eq!(light.on_primary, Rgb::from_rgb(255, 255, 255));
    assert_eq!(light.surface, Rgb::from_rgb(254, 247, 255));
    assert_eq!(light.error, Rgb::from_rgb(179, 38, 30));
    assert_eq!(light.success, Rgb::from_rgb(56, 142, 60));
    let dark = Material3Colors::dark();
    assert_eq!(dark.outline_variant, Rgb::from_rgb(68, 64, 75));
    assert_eq!(Material3Colors::for_theme(true).primary, dark.primary);
    assert_eq!(Material3Colors::for_theme(false).primary, light.primary);
}

#[test]
fn button_colors_follow_the_kind_of_button() {
    let colors = Material3Colors::dark();
    assert_eq!(colors.button_colors(true), (colors.primary, colors.on_primary));
    assert_eq!(colors.button_colors(false), (colors.surface_variant, colors.on_surface));
}

#[test]
fn switching_the_theme_switches_the_palette() {
    let mut app = fresh();
    assert_eq!(app.theme_toggle(), ("☀", "Switch to Light Mode"));
    app.toggle_theme();
    assert!(!app.dark_mode);
    assert_eq!(app.colors.primary, Material3Colors::light().primary);
    assert_eq!(app.theme_toggle(), ("🌙", "Switch to Dark Mode"));
    app.toggle_theme();
    assert!(app.dark_mode);
    assert_eq!(app.colors.primary, Material3Colors::dark().primary);
}

#[test]
fn tabs_and_their_captions() {
    let mut app = fresh();
    app.select_tab(Tab::SalaryGrades);
    assert_eq!(app.current_tab, Tab::SalaryGrades);
    assert_eq!(Tab::Departments.label(), "🏢 Departments");
    assert_eq!(Tab::Employees.label(), "👥 Employees");
    assert_eq!(Tab::SalaryGrades.label(), "💰 Salary Grades");
}

#[test]
fn error_banner_shows_the_message() {
    let mut app = fresh();
    assert_eq!(app.error_banner(), None);
    app.error_message = Some("backend unreachable".to_string());
    assert_eq!(app.error_banner(), Some("⚠ backend unreachable".to_string()));
}

#[test]
fn clearing_a_form_empties_its_fields_only() {
    let mut app = fresh();
    app.dept_name = "Ops".to_string();
    app.dept_head_id = "e-1".to_string();
    app.emp_first_name = "A".to_string();
    app.emp_last_name = "B".to_string();
    app.emp_email = "a@b".to_string();
    app.emp_role = "Admin".to_string();
    app.emp_dept_id = "d".to_string();
    app.emp_manager_id = "m".to_string();
    app.emp_salary_grade_id = "g".to_string();
    app.grade_code = "E1".to_string();
    app.grade_salary = "1".to_string();
    app.grade_desc = "x".to_string();

    app.clear_emp_form();
    assert!(app.emp_first_name.is_empty() && app.emp_last_name.is_empty());
    assert!(app.emp_email.is_empty() && app.emp_role.is_empty());
    assert!(app.emp_dept_id.is_empty() && app.emp_manager_id.is_empty());
    assert!(app.emp_salary_grade_id.is_empty());
    assert_eq!(app.dept_name, "Ops");
    assert_eq!(app.grade_code, "E1");

    app.clear_grade_form();
    assert!(app.grade_code.is_empty() && app.grade_salary.is_empty() && app.grade_desc.is_empty());
    assert_eq!(app.dept_head_id, "e-1");

    app.clear_dept_form();
    assert!(app.dept_name.is_empty() && app.dept_head_id.is_empty());
}
