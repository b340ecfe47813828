//! The dialogs: what each form shows, what its buttons do, and how a form
//! that is submitted becomes an action that waits for confirmation.

use vstd::prelude::*;
use crate::app::{PersonnelApp, PersonnelAppView};
use crate::cache::{
    employee_name, find_department, find_employee, roster_line, spec_employee_name,
    spec_find_department, spec_find_employee, spec_roster_line,
};
use crate::dialogs::{
    ConfirmAction, ConfirmActionView, ConfirmPrompt, ConfirmPromptView, EditDialog,
    EditDialogView, FormKind,
};
use crate::models::{
    non_empty, spec_non_empty, DepartmentView, EmployeeView, Salary, SalaryGradeView,
};
use crate::screens::{amount_at, grade_label, spec_amount_at, spec_grade_label, spec_grade_label_of};
use crate::text::{full_name, push_view, spec_full_name, spec_or_text};
use crate::workflow::{Step, StepView};

verus! {

/// One entry of a dropdown.
#[derive(Debug)]
pub struct Choice {
    /// What the form field holds when the entry is chosen.
    pub id: String,
    pub label: String,
    /// Whether the form field holds this entry.
    pub selected: bool,
}

/// The view of a [`Choice`]: each text as its sequence of characters.
pub ghost struct ChoiceView {
    pub id: Seq<char>,
    pub label: Seq<char>,
    pub selected: bool,
}

impl View for Choice {
    type V = ChoiceView;

    open spec fn view(&self) -> ChoiceView {
        ChoiceView { id: self.id@, label: self.label@, selected: self.selected }
    }
}

impl DeepView for Choice {
    type V = ChoiceView;

    open spec fn deep_view(&self) -> ChoiceView {
        self@
    }
}

/// A dropdown whose first entry stands for "none".
#[derive(Debug)]
pub struct Dropdown {
    /// What the closed dropdown reads.
    pub label: String,
    /// Whether the form field is empty, so that the entry for "none" is the
    /// chosen one.
    pub none_selected: bool,
    pub choices: Vec<Choice>,
}

/// The view of a [`Dropdown`]: each text as its sequence of characters.
pub ghost struct DropdownView {
    pub label: Seq<char>,
    pub none_selected: bool,
    pub choices: Seq<ChoiceView>,
}

impl View for Dropdown {
    type V = DropdownView;

    open spec fn view(&self) -> DropdownView {
        DropdownView {
            label: self.label@,
            none_selected: self.none_selected,
            choices: self.choices.deep_view(),
        }
    }
}

/// The position, in a list that starts with the entry for "none", of the
/// first entry from `from` on that is chosen: zero where none is.
pub open spec fn spec_selected_position(choices: Seq<ChoiceView>, from: nat) -> nat
    decreases choices.len() - from,
{
    if from >= choices.len() {
        0
    } else if choices[from as int].selected {
        from + 1
    } else {
        spec_selected_position(choices, from + 1)
    }
}

/// What the form field holds when the entry at `position` is chosen, in a
/// list that starts with the entry for "none": nothing for that entry and
/// for a position beyond the list.
pub open spec fn spec_field_at(choices: Seq<ChoiceView>, position: int) -> Seq<char> {
    if 1 <= position <= choices.len() {
        choices[position - 1].id
    } else {
        Seq::empty()
    }
}

impl Dropdown {
    /// The position of the chosen entry in a list that starts with the
    /// entry for "none": zero where no entry is chosen.
    pub fn selected_position(&self) -> (res: usize)
        ensures
            res == spec_selected_position(self@.choices, 0),
    {
        let mut i: usize = 0;
        while i < self.choices.len()
            invariant
                i <= self.choices.len(),
                spec_selected_position(self@.choices, 0) == spec_selected_position(
                    self@.choices,
                    i as nat,
                ),
            decreases self.choices.len() - i,
        {
            if self.choices[i].selected {
                return i + 1;
            }
            i += 1;
        }
        0
    }

    /// What the form field holds when the entry at `position` is chosen.
    pub fn field_at(&self, position: usize) -> (res: String)
        ensures
            res@ == spec_field_at(self@.choices, position as int),
    {
        if 1 <= position && position <= self.choices.len() {
            self.choices[position - 1].id.clone()
        } else {
            String::new()
        }
    }
}

/// What the department form shows beside its text field.
#[derive(Debug)]
pub struct DepartmentForm {
    pub head: Dropdown,
    /// The caption of the button that submits.
    pub action_label: String,
}

/// The view of a [`DepartmentForm`]: each text as its sequence of characters.
pub ghost struct DepartmentFormView {
    pub head: DropdownView,
    pub action_label: Seq<char>,
}

impl View for DepartmentForm {
    type V = DepartmentFormView;

    open spec fn view(&self) -> DepartmentFormView {
        DepartmentFormView { head: self.head@, action_label: self.action_label@ }
    }
}

/// What the employee form shows beside its text fields.
#[derive(Debug)]
pub struct EmployeeForm {
    pub role: Dropdown,
    pub department: Dropdown,
    pub manager: Dropdown,
    pub salary_grade: Dropdown,
    pub action_label: String,
}

/// The view of a [`EmployeeForm`]: each text as its sequence of characters.
pub ghost struct EmployeeFormView {
    pub role: DropdownView,
    pub department: DropdownView,
    pub manager: DropdownView,
    pub salary_grade: DropdownView,
    pub action_label: Seq<char>,
}

impl View for EmployeeForm {
    type V = EmployeeFormView;

    open spec fn view(&self) -> EmployeeFormView {
        EmployeeFormView {
            role: self.role@,
            department: self.department@,
            manager: self.manager@,
            salary_grade: self.salary_grade@,
            action_label: self.action_label@,
        }
    }
}

/// Heading and form of the dialog that is open.
#[derive(Debug)]
pub struct EditPrompt {
    pub title: String,
    pub form: FormKind,
}

/// The view of a [`EditPrompt`]: each text as its sequence of characters.
pub ghost struct EditPromptView {
    pub title: Seq<char>,
    pub form: FormKind,
}

impl View for EditPrompt {
    type V = EditPromptView;

    open spec fn view(&self) -> EditPromptView {
        EditPromptView { title: self.title@, form: self.form }
    }
}

impl DeepView for EditPrompt {
    type V = EditPromptView;

    open spec fn deep_view(&self) -> EditPromptView {
        self@
    }
}

/// The roles that the employee form offers, in its order.
pub open spec fn spec_roles() -> Seq<Seq<char>> {
    seq!["Employee"@, "DepartmentHead"@, "DeputyHead"@, "Admin"@]
}

/// What a closed dropdown reads: `none` where the field is empty, the
/// label of the record that the field names, `unknown` where it names
/// none.
pub open spec fn spec_dropdown_label(
    field: Seq<char>,
    found: Option<Seq<char>>,
    none: Seq<char>,
    unknown: Seq<char>,
) -> Seq<char> {
    if field.len() == 0 {
        none
    } else {
        spec_or_text(found, unknown)
    }
}

/// An employee as an entry of a dropdown: name and role.
pub open spec fn spec_employee_entry(prefix: Seq<char>, e: EmployeeView) -> Seq<char> {
    prefix + e.first_name + " "@ + e.last_name + " - "@ + e.role
}

fn employee_entry(prefix: &str, first_name: &str, last_name: &str, role: &str) -> (res: String)
    ensures
        res@ == prefix@ + first_name@ + " "@ + last_name@ + " - "@ + role@,
{
    let mut text = String::from_str(prefix);
    text.append(first_name);
    text.append(" ");
    text.append(last_name);
    text.append(" - ");
    text.append(role);
    text
}

/// The caption of the button that submits a form.
pub open spec fn spec_action_label(editing: bool) -> Seq<char> {
    if editing {
        "Update"@
    } else {
        "Create"@
    }
}

fn action_label(editing: bool) -> (res: String)
    ensures
        res@ == spec_action_label(editing),
{
    if editing {
        String::from_str("Update")
    } else {
        String::from_str("Create")
    }
}

impl PersonnelApp {
    /// The entries of a dropdown of employees, in the snapshot's order.
    pub open spec fn spec_employee_choices(
        employees: Seq<EmployeeView>,
        field: Seq<char>,
        prefix: Seq<char>,
    ) -> Seq<ChoiceView> {
        Seq::new(
            employees.len(),
            |i: int|
                ChoiceView {
                    id: employees[i].id,
                    label: spec_employee_entry(prefix, employees[i]),
                    selected: field == employees[i].id,
                },
        )
    }

    /// The entries of the dropdown of departments, in the snapshot's order.
    pub open spec fn spec_department_choices(
        departments: Seq<DepartmentView>,
        field: Seq<char>,
    ) -> Seq<ChoiceView> {
        Seq::new(
            departments.len(),
            |i: int|
                ChoiceView {
                    id: departments[i].id,
                    label: departments[i].name,
                    selected: field == departments[i].id,
                },
        )
    }

    /// The entries of the dropdown of salary grades, in the snapshot's
    /// order.
    pub open spec fn spec_grade_choices(
        grades: Seq<SalaryGradeView>,
        amounts: Seq<Seq<char>>,
        field: Seq<char>,
    ) -> Seq<ChoiceView> {
        Seq::new(
            grades.len(),
            |i: int|
                ChoiceView {
                    id: grades[i].id,
                    label: spec_grade_label(grades[i].code, spec_amount_at(amounts, i)),
                    selected: field == grades[i].id,
                },
        )
    }

    /// The entries of the dropdown of roles.
    pub open spec fn spec_role_choices(field: Seq<char>) -> Seq<ChoiceView> {
        Seq::new(
            spec_roles().len(),
            |i: int| ChoiceView { id: spec_roles()[i], label: spec_roles()[i], selected: field == spec_roles()[i] },
        )
    }

    /// The line of the employee that `id` names, for a closed dropdown.
    pub open spec fn spec_roster_line_of(employees: Seq<EmployeeView>, id: Seq<char>) -> Option<
        Seq<char>,
    > {
        match spec_find_employee(employees, id) {
            Some(i) => Some(spec_roster_line(employees[i])),
            None => None,
        }
    }

    /// What the department form shows: the dropdown of the head, and
    /// "Update" on the button where a department is edited, "Create"
    /// otherwise.
    pub open spec fn spec_show_department_form(
        app: PersonnelAppView,
        dialog: EditDialogView,
    ) -> DepartmentFormView {
        DepartmentFormView {
            head: DropdownView {
                label: spec_dropdown_label(
                    app.dept_head_id,
                    PersonnelApp::spec_roster_line_of(app.employees, app.dept_head_id),
                    "No head assigned"@,
                    "Select employee..."@,
                ),
                none_selected: app.dept_head_id.len() == 0,
                choices: PersonnelApp::spec_employee_choices(
                    app.employees,
                    app.dept_head_id,
                    "👤 "@,
                ),
            },
            action_label: spec_action_label(dialog is EditDepartment),
        }
    }

    /// What the employee form shows: the four dropdowns and the caption of
    /// the button.
    pub open spec fn spec_show_employee_form(
        app: PersonnelAppView,
        dialog: EditDialogView,
        amounts: Seq<Seq<char>>,
    ) -> EmployeeFormView {
        EmployeeFormView {
            role: DropdownView {
                label: if app.emp_role.len() == 0 {
                    "Select role..."@
                } else {
                    app.emp_role
                },
                none_selected: app.emp_role.len() == 0,
                choices: PersonnelApp::spec_role_choices(app.emp_role),
            },
            department: DropdownView {
                label: spec_dropdown_label(
                    app.emp_dept_id,
                    match spec_find_department(app.departments, app.emp_dept_id) {
                        Some(i) => Some(app.departments[i].name),
                        None => None,
                    },
                    "No department"@,
                    "Select..."@,
                ),
                none_selected: app.emp_dept_id.len() == 0,
                choices: PersonnelApp::spec_department_choices(app.departments, app.emp_dept_id),
            },
            manager: DropdownView {
                label: spec_dropdown_label(
                    app.emp_manager_id,
                    spec_employee_name(app.employees, Some(app.emp_manager_id)),
                    "No manager"@,
                    "Select..."@,
                ),
                none_selected: app.emp_manager_id.len() == 0,
                choices: PersonnelApp::spec_employee_choices(
                    app.employees,
                    app.emp_manager_id,
                    Seq::empty(),
                ),
            },
            salary_grade: DropdownView {
                label: spec_dropdown_label(
                    app.emp_salary_grade_id,
                    spec_grade_label_of(
                        app.salary_grades,
                        amounts,
                        Some(app.emp_salary_grade_id),
                    ),
                    "No salary grade"@,
                    "Select..."@,
                ),
                none_selected: app.emp_salary_grade_id.len() == 0,
                choices: PersonnelApp::spec_grade_choices(
                    app.salary_grades,
                    amounts,
                    app.emp_salary_grade_id,
                ),
            },
            action_label: spec_action_label(dialog is EditEmployee),
        }
    }

    fn employee_choices(&self, field: &String, prefix: &str) -> (res: Vec<Choice>)
        ensures
            res.deep_view() == PersonnelApp::spec_employee_choices(
                self@.employees,
                field@,
                prefix@,
            ),
    {
        let mut choices: Vec<Choice> = Vec::new();
        let mut i: usize = 0;
        assert(choices.deep_view() =~= PersonnelApp::spec_employee_choices(
            self@.employees,
            field@,
            prefix@,
        ).take(0));
        while i < self.employees.len()
            invariant
                i <= self.employees.len(),
                choices.deep_view() == PersonnelApp::spec_employee_choices(
                    self@.employees,
                    field@,
                    prefix@,
                ).take(i as int),
            decreases self.employees.len() - i,
        {
            let e = &self.employees[i];
            let choice = Choice {
                id: e.id.clone(),
                label: employee_entry(
                    prefix,
                    e.first_name.as_str(),
                    e.last_name.as_str(),
                    e.role.as_str(),
                ),
                selected: *field == e.id,
            };
            push_view(&mut choices, choice);
            i += 1;
            assert(choices.deep_view() =~= PersonnelApp::spec_employee_choices(
                self@.employees,
                field@,
                prefix@,
            ).take(i as int));
        }
        assert(choices.deep_view() =~= PersonnelApp::spec_employee_choices(
            self@.employees,
            field@,
            prefix@,
        ));
        choices
    }

    fn department_choices(&self, field: &String) -> (res: Vec<Choice>)
        ensures
            res.deep_view() == PersonnelApp::spec_department_choices(self@.departments, field@),
    {
        let mut choices: Vec<Choice> = Vec::new();
        let mut i: usize = 0;
        assert(choices.deep_view() =~= PersonnelApp::spec_department_choices(
            self@.departments,
            field@,
        ).take(0));
        while i < self.departments.len()
            invariant
                i <= self.departments.len(),
                choices.deep_view() == PersonnelApp::spec_department_choices(
                    self@.departments,
                    field@,
                ).take(i as int),
            decreases self.departments.len() - i,
        {
            let d = &self.departments[i];
            let choice = Choice { id: d.id.clone(), label: d.name.clone(), selected: *field == d.id };
            push_view(&mut choices, choice);
            i += 1;
            assert(choices.deep_view() =~= PersonnelApp::spec_department_choices(
                self@.departments,
                field@,
            ).take(i as int));
        }
        assert(choices.deep_view() =~= PersonnelApp::spec_department_choices(
            self@.departments,
            field@,
        ));
        choices
    }

    fn grade_choices(&self, amounts: &Vec<String>, field: &String) -> (res: Vec<Choice>)
        ensures
            res.deep_view() == PersonnelApp::spec_grade_choices(
                self@.salary_grades,
                amounts.deep_view(),
                field@,
            ),
    {
        let mut choices: Vec<Choice> = Vec::new();
        let mut i: usize = 0;
        assert(choices.deep_view() =~= PersonnelApp::spec_grade_choices(
            self@.salary_grades,
            amounts.deep_view(),
            field@,
        ).take(0));
        while i < self.salary_grades.len()
            invariant
                i <= self.salary_grades.len(),
                choices.deep_view() == PersonnelApp::spec_grade_choices(
                    self@.salary_grades,
                    amounts.deep_view(),
                    field@,
                ).take(i as int),
            decreases self.salary_grades.len() - i,
        {
            let g = &self.salary_grades[i];
            let amount = amount_at(amounts, i);
            let choice = Choice {
                id: g.id.clone(),
                label: grade_label(g.code.as_str(), amount.as_str()),
                selected: *field == g.id,
            };
            push_view(&mut choices, choice);
            i += 1;
            assert(choices.deep_view() =~= PersonnelApp::spec_grade_choices(
                self@.salary_grades,
                amounts.deep_view(),
                field@,
            ).take(i as int));
        }
        assert(choices.deep_view() =~= PersonnelApp::spec_grade_choices(
            self@.salary_grades,
            amounts.deep_view(),
            field@,
        ));
        choices
    }

    fn role_choice(role: &str, field: &String) -> (res: Choice)
        ensures
            res@ == (ChoiceView { id: role@, label: role@, selected: field@ == role@ }),
    {
        let id = String::from_str(role);
        let selected = *field == id;
        Choice { id, label: String::from_str(role), selected }
    }

    fn role_choices(field: &String) -> (res: Vec<Choice>)
        ensures
            res.deep_view() == PersonnelApp::spec_role_choices(field@),
    {
        let mut choices: Vec<Choice> = Vec::new();
        assert(choices.deep_view() =~= Seq::empty());
        push_view(&mut choices, PersonnelApp::role_choice("Employee", field));
        push_view(&mut choices, PersonnelApp::role_choice("DepartmentHead", field));
        push_view(&mut choices, PersonnelApp::role_choice("DeputyHead", field));
        push_view(&mut choices, PersonnelApp::role_choice("Admin", field));
        assert(choices.deep_view() =~= PersonnelApp::spec_role_choices(field@));
        choices
    }

    fn dropdown_label(field: &String, found: Option<String>, none: &str, unknown: &str) -> (res:
        String)
        ensures
            res@ == spec_dropdown_label(field@, found.deep_view(), none@, unknown@),
    {
        if field.as_str().is_empty() {
            String::from_str(none)
        } else {
            match found {
                Some(label) => label,
                None => String::from_str(unknown),
            }
        }
    }

    /// What the department form shows.
    pub fn show_department_form(&self, dialog: &EditDialog) -> (res: DepartmentForm)
        ensures
            res@ == PersonnelApp::spec_show_department_form(self@, dialog@),
    {
        let found = match find_employee(&self.employees, &self.dept_head_id) {
            Some(i) => Some(roster_line(&self.employees[i])),
            None => None,
        };
        let editing = match dialog {
            EditDialog::EditDepartment { .. } => true,
            _ => false,
        };
        DepartmentForm {
            head: Dropdown {
                label: PersonnelApp::dropdown_label(
                    &self.dept_head_id,
                    found,
                    "No head assigned",
                    "Select employee...",
                ),
                none_selected: self.dept_head_id.as_str().is_empty(),
                choices: self.employee_choices(&self.dept_head_id, "👤 "),
            },
            action_label: action_label(editing),
        }
    }

    /// What the employee form shows.
    pub fn show_employee_form(&self, dialog: &EditDialog, amounts: &Vec<String>) -> (res:
        EmployeeForm)
        ensures
            res@ == PersonnelApp::spec_show_employee_form(self@, dialog@, amounts.deep_view()),
    {
        let editing = match dialog {
            EditDialog::EditEmployee { .. } => true,
            _ => false,
        };
        let department = match find_department(&self.departments, &self.emp_dept_id) {
            Some(i) => Some(self.departments[i].name.clone()),
            None => None,
        };
        let manager = match find_employee(&self.employees, &self.emp_manager_id) {
            Some(i) => Some(
                full_name(
                    self.employees[i].first_name.as_str(),
                    self.employees[i].last_name.as_str(),
                ),
            ),
            None => None,
        };
        let grade = match crate::cache::find_salary_grade(
            &self.salary_grades,
            &self.emp_salary_grade_id,
        ) {
            Some(i) => {
                let amount = amount_at(amounts, i);
                Some(grade_label(self.salary_grades[i].code.as_str(), amount.as_str()))
            },
            None => None,
        };
        proof {
            reveal_strlit("");
            assert(""@ =~= Seq::<char>::empty());
        }
        EmployeeForm {
            role: Dropdown {
                label: if self.emp_role.as_str().is_empty() {
                    String::from_str("Select role...")
                } else {
                    self.emp_role.clone()
                },
                none_selected: self.emp_role.as_str().is_empty(),
                choices: PersonnelApp::role_choices(&self.emp_role),
            },
            department: Dropdown {
                label: PersonnelApp::dropdown_label(
                    &self.emp_dept_id,
                    department,
                    "No department",
                    "Select...",
                ),
                none_selected: self.emp_dept_id.as_str().is_empty(),
                choices: self.department_choices(&self.emp_dept_id),
            },
            manager: Dropdown {
                label: PersonnelApp::dropdown_label(
                    &self.emp_manager_id,
                    manager,
                    "No manager",
                    "Select...",
                ),
                none_selected: self.emp_manager_id.as_str().is_empty(),
                choices: self.employee_choices(&self.emp_manager_id, ""),
            },
            salary_grade: Dropdown {
                label: PersonnelApp::dropdown_label(
                    &self.emp_salary_grade_id,
                    grade,
                    "No salary grade",
                    "Select...",
                ),
                none_selected: self.emp_salary_grade_id.as_str().is_empty(),
                choices: self.grade_choices(amounts, &self.emp_salary_grade_id),
            },
            action_label: action_label(editing),
        }
    }

    /// The caption of the salary grade form's button: "Update" where a
    /// salary grade is edited, "Create" otherwise.
    pub fn show_salary_grade_form(&self, dialog: &EditDialog) -> (res: String)
        ensures
            res@ == spec_action_label(dialog@ is EditSalaryGrade),
    {
        let editing = match dialog {
            EditDialog::EditSalaryGrade { .. } => true,
            _ => false,
        };
        action_label(editing)
    }

    /// The state after the department form was submitted. A form without a
    /// name is not submitted. Otherwise the form closes and an action waits
    /// for confirmation: where a department is edited its update, with the
    /// names of the old and the new head looked up in the snapshot; in any
    /// other dialog a creation.
    pub open spec fn spec_submit_department_form(
        app: PersonnelAppView,
        dialog: EditDialogView,
    ) -> PersonnelAppView {
        if app.dept_name.len() == 0 {
            app
        } else {
            match dialog {
                EditDialogView::EditDepartment { id, old_head_id } => PersonnelAppView {
                    confirm_dialog: Some(
                        ConfirmActionView::UpdateDepartment {
                            id,
                            name: app.dept_name,
                            old_head_id,
                            old_head_name: spec_employee_name(app.employees, old_head_id),
                            new_head_id: spec_non_empty(app.dept_head_id),
                            new_head_name: spec_employee_name(
                                app.employees,
                                spec_non_empty(app.dept_head_id),
                            ),
                        },
                    ),
                    edit_dialog: None,
                    ..app
                },
                _ => PersonnelAppView {
                    confirm_dialog: Some(
                        ConfirmActionView::CreateDepartment { name: app.dept_name },
                    ),
                    edit_dialog: None,
                    ..app
                },
            }
        }
    }

    /// Handles a click on the button that submits the department form.
    pub fn submit_department_form(&mut self, dialog: &EditDialog)
        ensures
            final(self)@ == PersonnelApp::spec_submit_department_form(old(self)@, dialog@),
    {
        if self.dept_name.as_str().is_empty() {
            return ;
        }
        let action = match dialog {
            EditDialog::EditDepartment { id, old_head_id } => {
                let new_head_id = non_empty(&self.dept_head_id);
                ConfirmAction::UpdateDepartment {
                    id: id.clone(),
                    name: self.dept_name.clone(),
                    old_head_id: old_head_id.clone(),
                    old_head_name: employee_name(&self.employees, old_head_id),
                    new_head_name: employee_name(&self.employees, &new_head_id),
                    new_head_id,
                }
            },
            _ => ConfirmAction::CreateDepartment { name: self.dept_name.clone() },
        };
        self.confirm_dialog = Some(action);
        self.edit_dialog = None;
    }

    /// Closes the department form and empties it.
    pub fn cancel_department_form(&mut self)
        ensures
            final(self)@ == (PersonnelAppView {
                edit_dialog: None,
                ..PersonnelApp::spec_clear_dept_form(old(self)@)
            }),
    {
        self.edit_dialog = None;
        self.clear_dept_form();
    }

    /// The state after the employee form was submitted. A form without a
    /// first or a last name is not submitted.
    pub open spec fn spec_submit_employee_form(
        app: PersonnelAppView,
        dialog: EditDialogView,
    ) -> PersonnelAppView {
        if app.emp_first_name.len() == 0 || app.emp_last_name.len() == 0 {
            app
        } else {
            let name = spec_full_name(app.emp_first_name, app.emp_last_name);
            match dialog {
                EditDialogView::EditEmployee { id } => PersonnelAppView {
                    confirm_dialog: Some(ConfirmActionView::UpdateEmployee { id, name }),
                    edit_dialog: None,
                    ..app
                },
                _ => PersonnelAppView {
                    confirm_dialog: Some(ConfirmActionView::CreateEmployee { name }),
                    edit_dialog: None,
                    ..app
                },
            }
        }
    }

    /// Handles a click on the button that submits the employee form.
    pub fn submit_employee_form(&mut self, dialog: &EditDialog)
        ensures
            final(self)@ == PersonnelApp::spec_submit_employee_form(old(self)@, dialog@),
    {
        if self.emp_first_name.as_str().is_empty() || self.emp_last_name.as_str().is_empty() {
            return ;
        }
        let name = full_name(self.emp_first_name.as_str(), self.emp_last_name.as_str());
        let action = match dialog {
            EditDialog::EditEmployee { id } => ConfirmAction::UpdateEmployee {
                id: id.clone(),
                name,
            },
            _ => ConfirmAction::CreateEmployee { name },
        };
        self.confirm_dialog = Some(action);
        self.edit_dialog = None;
    }

    /// Closes the employee form and empties it.
    pub fn cancel_employee_form(&mut self)
        ensures
            final(self)@ == (PersonnelAppView {
                edit_dialog: None,
                ..PersonnelApp::spec_clear_emp_form(old(self)@)
            }),
    {
        self.edit_dialog = None;
        self.clear_emp_form();
    }

    /// The state after the salary grade form was submitted. A form without
    /// a code is not submitted.
    pub open spec fn spec_submit_salary_grade_form(
        app: PersonnelAppView,
        dialog: EditDialogView,
    ) -> PersonnelAppView {
        if app.grade_code.len() == 0 {
            app
        } else {
            match dialog {
                EditDialogView::EditSalaryGrade { id } => PersonnelAppView {
                    confirm_dialog: Some(
                        ConfirmActionView::UpdateSalaryGrade { id, code: app.grade_code },
                    ),
                    edit_dialog: None,
                    ..app
                },
                _ => PersonnelAppView {
                    confirm_dialog: Some(
                        ConfirmActionView::CreateSalaryGrade { code: app.grade_code },
                    ),
                    edit_dialog: None,
                    ..app
                },
            }
        }
    }

    /// Handles a click on the button that submits the salary grade form.
    pub fn submit_salary_grade_form(&mut self, dialog: &EditDialog)
        ensures
            final(self)@ == PersonnelApp::spec_submit_salary_grade_form(old(self)@, dialog@),
    {
        if self.grade_code.as_str().is_empty() {
            return ;
        }
        let action = match dialog {
            EditDialog::EditSalaryGrade { id } => ConfirmAction::UpdateSalaryGrade {
                id: id.clone(),
                code: self.grade_code.clone(),
            },
            _ => ConfirmAction::CreateSalaryGrade { code: self.grade_code.clone() },
        };
        self.confirm_dialog = Some(action);
        self.edit_dialog = None;
    }

    /// Closes the salary grade form and empties it.
    pub fn cancel_salary_grade_form(&mut self)
        ensures
            final(self)@ == (PersonnelAppView {
                edit_dialog: None,
                ..PersonnelApp::spec_clear_grade_form(old(self)@)
            }),
    {
        self.edit_dialog = None;
        self.clear_grade_form();
    }

    /// Heading and form of the dialog that is open, if one is.
    pub open spec fn spec_show_edit_dialog(app: PersonnelAppView) -> Option<EditPromptView> {
        match app.edit_dialog {
            Some(dialog) => Some(
                EditPromptView {
                    title: EditDialog::spec_title(dialog),
                    form: EditDialog::spec_form(dialog),
                },
            ),
            None => None,
        }
    }

    /// Heading and form of the dialog that is open, if one is.
    pub fn show_edit_dialog(&self) -> (res: Option<EditPrompt>)
        ensures
            res.deep_view() == PersonnelApp::spec_show_edit_dialog(self@),
    {
        match &self.edit_dialog {
            Some(dialog) => Some(
                EditPrompt { title: String::from_str(dialog.title()), form: dialog.form() },
            ),
            None => None,
        }
    }

    /// What the confirmation that is open shows, if one is.
    pub open spec fn spec_show_confirm_dialog(app: PersonnelAppView) -> Option<ConfirmPromptView> {
        match app.confirm_dialog {
            Some(action) => Some(ConfirmAction::spec_prompt(action)),
            None => None,
        }
    }

    /// What the confirmation that is open shows, if one is.
    pub fn show_confirm_dialog(&self) -> (res: Option<ConfirmPrompt>)
        ensures
            res.deep_view() == PersonnelApp::spec_show_confirm_dialog(self@),
    {
        match &self.confirm_dialog {
            Some(action) => Some(action.prompt()),
            None => None,
        }
    }

    /// Closes the confirmation without carrying the action out.
    pub fn cancel_confirmation(&mut self)
        ensures
            final(self)@ == (PersonnelAppView { confirm_dialog: None, ..old(self)@ }),
    {
        self.confirm_dialog = None;
    }

    /// The plan of the action that waits for confirmation: no call where
    /// none waits.
    pub open spec fn spec_confirmed_plan(app: PersonnelAppView, salary: Option<Salary>) -> Seq<
        StepView,
    > {
        match app.confirm_dialog {
            Some(action) => PersonnelApp::spec_plan(app, action, salary),
            None => Seq::empty(),
        }
    }

    /// The state after the action that waited was confirmed: the
    /// confirmation is closed, and the form that staged the action is
    /// cleared.
    pub open spec fn spec_confirmed(app: PersonnelAppView) -> PersonnelAppView {
        match app.confirm_dialog {
            Some(action) => PersonnelAppView {
                confirm_dialog: None,
                ..PersonnelApp::spec_staged_cleared(app, action)
            },
            None => app,
        }
    }

    /// Handles a click on the button that confirms: starts the action that
    /// waits and closes the confirmation. `salary` is the amount that the
    /// salary field of the salary grade form holds, `None` where it holds
    /// no number.
    pub fn confirm(&mut self, salary: Option<Salary>) -> (plan: Vec<Step>)
        ensures
            plan.deep_view() == PersonnelApp::spec_confirmed_plan(old(self)@, salary),
            final(self)@ == PersonnelApp::spec_confirmed(old(self)@),
    {
        let waiting = self.confirm_dialog.take();
        match waiting {
            Some(action) => {
                let ghost staged = self@;
                let plan = self.execute_confirmed_action(action, salary);
                assert(PersonnelApp::spec_plan(staged, action@, salary)
                    == PersonnelApp::spec_plan(old(self)@, action@, salary));
                plan
            },
            None => {
                let plan: Vec<Step> = Vec::new();
                assert(plan.deep_view() =~= Seq::empty());
                plan
            },
        }
    }
}

} // verus!
