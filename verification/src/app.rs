//! The state of the client: which tab and dialog are open, what the forms
//! hold, and the snapshots of the three resources.

use vstd::prelude::*;
use crate::colors::Material3Colors;
use crate::config::{Config, ConfigView};
use crate::dialogs::{ConfirmAction, ConfirmActionView, EditDialog, EditDialogView};
use crate::gateway::ApiClient;
use crate::models::{
    Department, DepartmentView, Employee, EmployeeView, SalaryGrade, SalaryGradeView,
};
use crate::text::concat2;

verus! {

/// The tab that is shown.
#[derive(Debug, PartialEq, Eq, Structural, Clone, Copy)]
pub enum Tab {
    Departments,
    Employees,
    SalaryGrades,
}

impl Tab {
    /// The caption of the tab's button.
    pub open spec fn spec_label(self) -> Seq<char> {
        match self {
            Tab::Departments => "🏢 Departments"@,
            Tab::Employees => "👥 Employees"@,
            Tab::SalaryGrades => "💰 Salary Grades"@,
        }
    }

    /// The caption of the tab's button.
    pub fn label(&self) -> (res: &'static str)
        ensures
            res@ == self.spec_label(),
    {
        match self {
            Tab::Departments => "🏢 Departments",
            Tab::Employees => "👥 Employees",
            Tab::SalaryGrades => "💰 Salary Grades",
        }
    }
}

/// The state of the client.
#[derive(Debug)]
pub struct PersonnelApp {
    /// The gateway that turns steps into requests.
    pub api: ApiClient,
    pub colors: Material3Colors,
    pub dark_mode: bool,
    pub current_tab: Tab,
    /// The action that waits for confirmation, if any.
    pub confirm_dialog: Option<ConfirmAction>,
    /// The form that is open, if any.
    pub edit_dialog: Option<EditDialog>,
    /// Snapshot of the departments.
    pub departments: Vec<Department>,
    pub dept_name: String,
    pub dept_head_id: String,
    pub selected_dept: Option<usize>,
    pub dept_loading: bool,
    /// Snapshot of the employees.
    pub employees: Vec<Employee>,
    pub emp_first_name: String,
    pub emp_last_name: String,
    pub emp_email: String,
    pub emp_role: String,
    pub emp_dept_id: String,
    pub emp_manager_id: String,
    pub emp_salary_grade_id: String,
    pub selected_emp: Option<usize>,
    pub emp_loading: bool,
    /// Snapshot of the salary grades.
    pub salary_grades: Vec<SalaryGrade>,
    pub grade_code: String,
    /// The salary as the user typed it.
    pub grade_salary: String,
    pub grade_desc: String,
    pub selected_grade: Option<usize>,
    pub grade_loading: bool,
    /// The message of the error banner, if one is shown.
    pub error_message: Option<String>,
}

/// The view of a [`PersonnelApp`]: each text as its sequence of characters.
pub ghost struct PersonnelAppView {
    pub api: ConfigView,
    pub colors: Material3Colors,
    pub dark_mode: bool,
    pub current_tab: Tab,
    pub confirm_dialog: Option<ConfirmActionView>,
    pub edit_dialog: Option<EditDialogView>,
    pub departments: Seq<DepartmentView>,
    pub dept_name: Seq<char>,
    pub dept_head_id: Seq<char>,
    pub selected_dept: Option<usize>,
    pub dept_loading: bool,
    pub employees: Seq<EmployeeView>,
    pub emp_first_name: Seq<char>,
    pub emp_last_name: Seq<char>,
    pub emp_email: Seq<char>,
    pub emp_role: Seq<char>,
    pub emp_dept_id: Seq<char>,
    pub emp_manager_id: Seq<char>,
    pub emp_salary_grade_id: Seq<char>,
    pub selected_emp: Option<usize>,
    pub emp_loading: bool,
    pub salary_grades: Seq<SalaryGradeView>,
    pub grade_code: Seq<char>,
    pub grade_salary: Seq<char>,
    pub grade_desc: Seq<char>,
    pub selected_grade: Option<usize>,
    pub grade_loading: bool,
    pub error_message: Option<Seq<char>>,
}

impl View for PersonnelApp {
    type V = PersonnelAppView;

    open spec fn view(&self) -> PersonnelAppView {
        PersonnelAppView {
            api: self.api@,
            colors: self.colors,
            dark_mode: self.dark_mode,
            current_tab: self.current_tab,
            confirm_dialog: self.confirm_dialog.deep_view(),
            edit_dialog: self.edit_dialog.deep_view(),
            departments: self.departments.deep_view(),
            dept_name: self.dept_name@,
            dept_head_id: self.dept_head_id@,
            selected_dept: self.selected_dept,
            dept_loading: self.dept_loading,
            employees: self.employees.deep_view(),
            emp_first_name: self.emp_first_name@,
            emp_last_name: self.emp_last_name@,
            emp_email: self.emp_email@,
            emp_role: self.emp_role@,
            emp_dept_id: self.emp_dept_id@,
            emp_manager_id: self.emp_manager_id@,
            emp_salary_grade_id: self.emp_salary_grade_id@,
            selected_emp: self.selected_emp,
            emp_loading: self.emp_loading,
            salary_grades: self.salary_grades.deep_view(),
            grade_code: self.grade_code@,
            grade_salary: self.grade_salary@,
            grade_desc: self.grade_desc@,
            selected_grade: self.selected_grade,
            grade_loading: self.grade_loading,
            error_message: self.error_message.deep_view(),
        }
    }
}

impl Default for PersonnelApp {
    /// The state at start, for a backend at the default address.
    fn default() -> (res: Self)
        ensures
            res@ == PersonnelApp::spec_new(Config::spec_default()),
    {
        PersonnelApp::new(ApiClient::new(Config::default()))
    }
}

impl PersonnelApp {
    /// The state at start: the dark theme, the departments tab, no dialog,
    /// empty forms and empty snapshots.
    pub open spec fn spec_new(cfg: ConfigView) -> PersonnelAppView {
        PersonnelAppView {
            api: cfg,
            colors: Material3Colors::spec_dark(),
            dark_mode: true,
            current_tab: Tab::Departments,
            confirm_dialog: None,
            edit_dialog: None,
            departments: Seq::empty(),
            dept_name: Seq::empty(),
            dept_head_id: Seq::empty(),
            selected_dept: None,
            dept_loading: false,
            employees: Seq::empty(),
            emp_first_name: Seq::empty(),
            emp_last_name: Seq::empty(),
            emp_email: Seq::empty(),
            emp_role: Seq::empty(),
            emp_dept_id: Seq::empty(),
            emp_manager_id: Seq::empty(),
            emp_salary_grade_id: Seq::empty(),
            selected_emp: None,
            emp_loading: false,
            salary_grades: Seq::empty(),
            grade_code: Seq::empty(),
            grade_salary: Seq::empty(),
            grade_desc: Seq::empty(),
            selected_grade: None,
            grade_loading: false,
            error_message: None,
        }
    }

    /// The state at start.
    pub fn new(api: ApiClient) -> (res: Self)
        ensures
            res@ == PersonnelApp::spec_new(api@),
    {
        let app = PersonnelApp {
            api: api,
            colors: Material3Colors::dark(),
            dark_mode: true,
            current_tab: Tab::Departments,
            confirm_dialog: None,
            edit_dialog: None,
            departments: Vec::new(),
            dept_name: String::new(),
            dept_head_id: String::new(),
            selected_dept: None,
            dept_loading: false,
            employees: Vec::new(),
            emp_first_name: String::new(),
            emp_last_name: String::new(),
            emp_email: String::new(),
            emp_role: String::new(),
            emp_dept_id: String::new(),
            emp_manager_id: String::new(),
            emp_salary_grade_id: String::new(),
            selected_emp: None,
            emp_loading: false,
            salary_grades: Vec::new(),
            grade_code: String::new(),
            grade_salary: String::new(),
            grade_desc: String::new(),
            selected_grade: None,
            grade_loading: false,
            error_message: None,
        };
        assert(app.departments.deep_view() =~= Seq::empty());
        assert(app.employees.deep_view() =~= Seq::empty());
        assert(app.salary_grades.deep_view() =~= Seq::empty());
        app
    }

    /// Shows another tab.
    pub fn select_tab(&mut self, tab: Tab)
        ensures
            final(self)@ == (PersonnelAppView { current_tab: tab, ..old(self)@ }),
    {
        self.current_tab = tab;
    }

    /// The state after the theme was switched.
    pub open spec fn spec_toggle_theme(app: PersonnelAppView) -> PersonnelAppView {
        PersonnelAppView {
            dark_mode: !app.dark_mode,
            colors: Material3Colors::spec_for_theme(!app.dark_mode),
            ..app
        }
    }

    /// Switches between the dark and the light theme.
    pub fn toggle_theme(&mut self)
        ensures
            final(self)@ == PersonnelApp::spec_toggle_theme(old(self)@),
    {
        self.dark_mode = !self.dark_mode;
        self.colors = Material3Colors::for_theme(self.dark_mode);
    }

    /// Icon and tooltip of the button that switches the theme.
    pub fn theme_toggle(&self) -> (res: (&'static str, &'static str))
        ensures
            res.0@ == if self.dark_mode {
                "☀"@
            } else {
                "🌙"@
            },
            res.1@ == if self.dark_mode {
                "Switch to Light Mode"@
            } else {
                "Switch to Dark Mode"@
            },
    {
        if self.dark_mode {
            ("☀", "Switch to Light Mode")
        } else {
            ("🌙", "Switch to Dark Mode")
        }
    }

    /// The text of the error banner: nothing where no error is shown.
    pub open spec fn spec_error_banner(app: PersonnelAppView) -> Option<Seq<char>> {
        match app.error_message {
            Some(message) => Some("⚠ "@ + message),
            None => None,
        }
    }

    /// The text of the error banner: nothing where no error is shown.
    pub fn error_banner(&self) -> (res: Option<String>)
        ensures
            res.deep_view() == PersonnelApp::spec_error_banner(self@),
    {
        match &self.error_message {
            Some(message) => Some(concat2("⚠ ", message.as_str())),
            None => None,
        }
    }

    /// The state with the department form emptied.
    pub open spec fn spec_clear_dept_form(app: PersonnelAppView) -> PersonnelAppView {
        PersonnelAppView { dept_name: Seq::empty(), dept_head_id: Seq::empty(), ..app }
    }

    /// The state with the employee form emptied.
    pub open spec fn spec_clear_emp_form(app: PersonnelAppView) -> PersonnelAppView {
        PersonnelAppView {
            emp_first_name: Seq::empty(),
            emp_last_name: Seq::empty(),
            emp_email: Seq::empty(),
            emp_role: Seq::empty(),
            emp_dept_id: Seq::empty(),
            emp_manager_id: Seq::empty(),
            emp_salary_grade_id: Seq::empty(),
            ..app
        }
    }

    /// The state with the salary grade form emptied.
    pub open spec fn spec_clear_grade_form(app: PersonnelAppView) -> PersonnelAppView {
        PersonnelAppView {
            grade_code: Seq::empty(),
            grade_salary: Seq::empty(),
            grade_desc: Seq::empty(),
            ..app
        }
    }

    /// Empties the department form.
    pub fn clear_dept_form(&mut self)
        ensures
            final(self)@ == PersonnelApp::spec_clear_dept_form(old(self)@),
    {
        self.dept_name = String::new();
        self.dept_head_id = String::new();
    }

    /// Empties the employee form.
    pub fn clear_emp_form(&mut self)
        ensures
            final(self)@ == PersonnelApp::spec_clear_emp_form(old(self)@),
    {
        self.emp_first_name = String::new();
        self.emp_last_name = String::new();
        self.emp_email = String::new();
        self.emp_role = String::new();
        self.emp_dept_id = String::new();
        self.emp_manager_id = String::new();
        self.emp_salary_grade_id = String::new();
    }

    /// Empties the salary grade form.
    pub fn clear_grade_form(&mut self)
        ensures
            final(self)@ == PersonnelApp::spec_clear_grade_form(old(self)@),
    {
        self.grade_code = String::new();
        self.grade_salary = String::new();
        self.grade_desc = String::new();
    }
}

} // verus!
