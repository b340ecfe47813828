//! The two kinds of dialog: the confirmation of an action, and the form
//! that creates or edits a record.

use vstd::prelude::*;
use crate::text::{decimal, decimal_digits};

verus! {

/// An action that waits for the user's confirmation.
#[derive(Debug)]
pub enum ConfirmAction {
    DeleteDepartment { id: String, name: String, employee_count: usize },
    DeleteEmployee { id: String, name: String },
    DeleteSalaryGrade { id: String, code: String, employee_count: usize },
    UpdateDepartment {
        id: String,
        name: String,
        old_head_id: Option<String>,
        old_head_name: Option<String>,
        new_head_id: Option<String>,
        new_head_name: Option<String>,
    },
    UpdateEmployee { id: String, name: String },
    UpdateSalaryGrade { id: String, code: String },
    CreateDepartment { name: String },
    CreateEmployee { name: String },
    CreateSalaryGrade { code: String },
}

/// The view of a [`ConfirmAction`]: each text as its sequence of characters.
pub ghost enum ConfirmActionView {
    DeleteDepartment { id: Seq<char>, name: Seq<char>, employee_count: usize },
    DeleteEmployee { id: Seq<char>, name: Seq<char> },
    DeleteSalaryGrade { id: Seq<char>, code: Seq<char>, employee_count: usize },
    UpdateDepartment {
        id: Seq<char>,
        name: Seq<char>,
        old_head_id: Option<Seq<char>>,
        old_head_name: Option<Seq<char>>,
        new_head_id: Option<Seq<char>>,
        new_head_name: Option<Seq<char>>,
    },
    UpdateEmployee { id: Seq<char>, name: Seq<char> },
    UpdateSalaryGrade { id: Seq<char>, code: Seq<char> },
    CreateDepartment { name: Seq<char> },
    CreateEmployee { name: Seq<char> },
    CreateSalaryGrade { code: Seq<char> },
}

impl View for ConfirmAction {
    type V = ConfirmActionView;

    open spec fn view(&self) -> ConfirmActionView {
        match self {
            ConfirmAction::DeleteDepartment { id, name, employee_count } => {
                ConfirmActionView::DeleteDepartment {
                    id: id@,
                    name: name@,
                    employee_count: *employee_count,
                }
            },
            ConfirmAction::DeleteEmployee { id, name } => ConfirmActionView::DeleteEmployee {
                id: id@,
                name: name@,
            },
            ConfirmAction::DeleteSalaryGrade { id, code, employee_count } => {
                ConfirmActionView::DeleteSalaryGrade {
                    id: id@,
                    code: code@,
                    employee_count: *employee_count,
                }
            },
            ConfirmAction::UpdateDepartment {
                id,
                name,
                old_head_id,
                old_head_name,
                new_head_id,
                new_head_name,
            } => ConfirmActionView::UpdateDepartment {
                id: id@,
                name: name@,
                old_head_id: old_head_id.deep_view(),
                old_head_name: old_head_name.deep_view(),
                new_head_id: new_head_id.deep_view(),
                new_head_name: new_head_name.deep_view(),
            },
            ConfirmAction::UpdateEmployee { id, name } => ConfirmActionView::UpdateEmployee {
                id: id@,
                name: name@,
            },
            ConfirmAction::UpdateSalaryGrade { id, code } => ConfirmActionView::UpdateSalaryGrade {
                id: id@,
                code: code@,
            },
            ConfirmAction::CreateDepartment { name } => ConfirmActionView::CreateDepartment {
                name: name@,
            },
            ConfirmAction::CreateEmployee { name } => ConfirmActionView::CreateEmployee {
                name: name@,
            },
            ConfirmAction::CreateSalaryGrade { code } => ConfirmActionView::CreateSalaryGrade {
                code: code@,
            },
        }
    }
}

impl DeepView for ConfirmAction {
    type V = ConfirmActionView;

    open spec fn deep_view(&self) -> ConfirmActionView {
        self@
    }
}

impl Clone for ConfirmAction {
    fn clone(&self) -> (res: Self)
        ensures
            res == *self,
    {
        match self {
            ConfirmAction::DeleteDepartment { id, name, employee_count } => {
                ConfirmAction::DeleteDepartment {
                    id: id.clone(),
                    name: name.clone(),
                    employee_count: *employee_count,
                }
            },
            ConfirmAction::DeleteEmployee { id, name } => ConfirmAction::DeleteEmployee {
                id: id.clone(),
                name: name.clone(),
            },
            ConfirmAction::DeleteSalaryGrade { id, code, employee_count } => {
                ConfirmAction::DeleteSalaryGrade {
                    id: id.clone(),
                    code: code.clone(),
                    employee_count: *employee_count,
                }
            },
            ConfirmAction::UpdateDepartment {
                id,
                name,
                old_head_id,
                old_head_name,
                new_head_id,
                new_head_name,
            } => ConfirmAction::UpdateDepartment {
                id: id.clone(),
                name: name.clone(),
                old_head_id: old_head_id.clone(),
                old_head_name: old_head_name.clone(),
                new_head_id: new_head_id.clone(),
                new_head_name: new_head_name.clone(),
            },
            ConfirmAction::UpdateEmployee { id, name } => ConfirmAction::UpdateEmployee {
                id: id.clone(),
                name: name.clone(),
            },
            ConfirmAction::UpdateSalaryGrade { id, code } => ConfirmAction::UpdateSalaryGrade {
                id: id.clone(),
                code: code.clone(),
            },
            ConfirmAction::CreateDepartment { name } => ConfirmAction::CreateDepartment {
                name: name.clone(),
            },
            ConfirmAction::CreateEmployee { name } => ConfirmAction::CreateEmployee {
                name: name.clone(),
            },
            ConfirmAction::CreateSalaryGrade { code } => ConfirmAction::CreateSalaryGrade {
                code: code.clone(),
            },
        }
    }
}

/// The form that is open: one that creates a record, or one that edits the
/// record with the given id.
#[derive(Debug)]
pub enum EditDialog {
    CreateDepartment,
    EditDepartment { id: String, old_head_id: Option<String> },
    CreateEmployee,
    EditEmployee { id: String },
    CreateSalaryGrade,
    EditSalaryGrade { id: String },
}

/// The view of a [`EditDialog`]: each text as its sequence of characters.
pub ghost enum EditDialogView {
    CreateDepartment,
    EditDepartment { id: Seq<char>, old_head_id: Option<Seq<char>> },
    CreateEmployee,
    EditEmployee { id: Seq<char> },
    CreateSalaryGrade,
    EditSalaryGrade { id: Seq<char> },
}

impl View for EditDialog {
    type V = EditDialogView;

    open spec fn view(&self) -> EditDialogView {
        match self {
            EditDialog::CreateDepartment => EditDialogView::CreateDepartment,
            EditDialog::EditDepartment { id, old_head_id } => EditDialogView::EditDepartment {
                id: id@,
                old_head_id: old_head_id.deep_view(),
            },
            EditDialog::CreateEmployee => EditDialogView::CreateEmployee,
            EditDialog::EditEmployee { id } => EditDialogView::EditEmployee { id: id@ },
            EditDialog::CreateSalaryGrade => EditDialogView::CreateSalaryGrade,
            EditDialog::EditSalaryGrade { id } => EditDialogView::EditSalaryGrade { id: id@ },
        }
    }
}

impl DeepView for EditDialog {
    type V = EditDialogView;

    open spec fn deep_view(&self) -> EditDialogView {
        self@
    }
}

impl Clone for EditDialog {
    fn clone(&self) -> (res: Self)
        ensures
            res == *self,
    {
        match self {
            EditDialog::CreateDepartment => EditDialog::CreateDepartment,
            EditDialog::EditDepartment { id, old_head_id } => EditDialog::EditDepartment {
                id: id.clone(),
                old_head_id: old_head_id.clone(),
            },
            EditDialog::CreateEmployee => EditDialog::CreateEmployee,
            EditDialog::EditEmployee { id } => EditDialog::EditEmployee { id: id.clone() },
            EditDialog::CreateSalaryGrade => EditDialog::CreateSalaryGrade,
            EditDialog::EditSalaryGrade { id } => EditDialog::EditSalaryGrade { id: id.clone() },
        }
    }
}

/// Which of the three forms a dialog shows.
#[derive(Debug, Clone, Copy, PartialEq, Eq, Structural)]
pub enum FormKind {
    Department,
    Employee,
    SalaryGrade,
}

impl EditDialog {
    /// The heading of the dialog.
    pub open spec fn spec_title(dialog: EditDialogView) -> Seq<char> {
        match dialog {
            EditDialogView::CreateDepartment => "➕ Create Department"@,
            EditDialogView::EditDepartment { .. } => "✏️ Edit Department"@,
            EditDialogView::CreateEmployee => "➕ Create Employee"@,
            EditDialogView::EditEmployee { .. } => "✏️ Edit Employee"@,
            EditDialogView::CreateSalaryGrade => "➕ Create Salary Grade"@,
            EditDialogView::EditSalaryGrade { .. } => "✏️ Edit Salary Grade"@,
        }
    }

    /// The heading of the dialog.
    pub fn title(&self) -> (res: &'static str)
        ensures
            res@ == EditDialog::spec_title(self@),
    {
        match self {
            EditDialog::CreateDepartment => "➕ Create Department",
            EditDialog::EditDepartment { .. } => "✏️ Edit Department",
            EditDialog::CreateEmployee => "➕ Create Employee",
            EditDialog::EditEmployee { .. } => "✏️ Edit Employee",
            EditDialog::CreateSalaryGrade => "➕ Create Salary Grade",
            EditDialog::EditSalaryGrade { .. } => "✏️ Edit Salary Grade",
        }
    }

    /// Which form the dialog shows.
    pub open spec fn spec_form(dialog: EditDialogView) -> FormKind {
        match dialog {
            EditDialogView::CreateDepartment | EditDialogView::EditDepartment { .. } => {
                FormKind::Department
            },
            EditDialogView::CreateEmployee | EditDialogView::EditEmployee { .. } => {
                FormKind::Employee
            },
            EditDialogView::CreateSalaryGrade | EditDialogView::EditSalaryGrade { .. } => {
                FormKind::SalaryGrade
            },
        }
    }

    /// Which form the dialog shows.
    pub fn form(&self) -> (res: FormKind)
        ensures
            res == EditDialog::spec_form(self@),
    {
        match self {
            EditDialog::CreateDepartment | EditDialog::EditDepartment { .. } => {
                FormKind::Department
            },
            EditDialog::CreateEmployee | EditDialog::EditEmployee { .. } => FormKind::Employee,
            EditDialog::CreateSalaryGrade | EditDialog::EditSalaryGrade { .. } => {
                FormKind::SalaryGrade
            },
        }
    }
}

/// What a confirmation dialog shows.
#[derive(Debug)]
pub struct ConfirmPrompt {
    pub title: String,
    pub message: String,
    /// Whether confirming destroys a record.
    pub destructive: bool,
    /// The caption of the button that confirms.
    pub confirm_label: String,
}

/// The view of a [`ConfirmPrompt`]: each text as its sequence of characters.
pub ghost struct ConfirmPromptView {
    pub title: Seq<char>,
    pub message: Seq<char>,
    pub destructive: bool,
    pub confirm_label: Seq<char>,
}

impl View for ConfirmPrompt {
    type V = ConfirmPromptView;

    open spec fn view(&self) -> ConfirmPromptView {
        ConfirmPromptView {
            title: self.title@,
            message: self.message@,
            destructive: self.destructive,
            confirm_label: self.confirm_label@,
        }
    }
}

impl DeepView for ConfirmPrompt {
    type V = ConfirmPromptView;

    open spec fn deep_view(&self) -> ConfirmPromptView {
        self@
    }
}

/// The question that precedes the deletion of a record which other records
/// refer to: `question`, the name, and where `count` is not zero a warning
/// made of `warning` and the count.
pub open spec fn spec_delete_message(
    question: Seq<char>,
    name: Seq<char>,
    count: nat,
    warning: Seq<char>,
) -> Seq<char> {
    if count > 0 {
        question + name + "\"?\n\n⚠️ Warning: "@ + decimal_digits(count) + warning
    } else {
        question + name + "\"?"@
    }
}

fn delete_message(question: &str, name: &str, count: usize, warning: &str) -> (res: String)
    ensures
        res@ == spec_delete_message(question@, name@, count as nat, warning@),
{
    let mut text = String::from_str(question);
    text.append(name);
    if count > 0 {
        text.append("\"?\n\n⚠️ Warning: ");
        let number = decimal(count);
        text.append(number.as_str());
        text.append(warning);
    } else {
        text.append("\"?");
    }
    text
}

/// What the confirmation of a department's update says of its head: who is
/// demoted and who is promoted. The names decide, not the ids.
pub open spec fn spec_head_change(
    old_head_name: Option<Seq<char>>,
    new_head_name: Option<Seq<char>>,
) -> Seq<char> {
    match (old_head_name, new_head_name) {
        (Some(old), Some(new)) => if old != new {
            "\n\n👔 Head Change:\n• Previous head \""@ + old + "\" will be demoted from department head role\n• New head \""@ + new + "\" will be promoted to department head role"@
        } else {
            Seq::empty()
        },
        (None, Some(new)) => "\n\n👔 Head Assignment:\n• \""@ + new + "\" will be promoted to department head role"@,
        (Some(old), None) => "\n\n👔 Head Removal:\n• \""@ + old + "\" will be demoted from department head role"@,
        (None, None) => Seq::empty(),
    }
}

fn head_change(old_head_name: &Option<String>, new_head_name: &Option<String>) -> (res: String)
    ensures
        res@ == spec_head_change(old_head_name.deep_view(), new_head_name.deep_view()),
{
    match (old_head_name, new_head_name) {
        (Some(old), Some(new)) => {
            if *old == *new {
                String::new()
            } else {
                let mut text = String::from_str("\n\n👔 Head Change:\n• Previous head \"");
                text.append(old.as_str());
                text.append("\" will be demoted from department head role\n• New head \"");
                text.append(new.as_str());
                text.append("\" will be promoted to department head role");
                text
            }
        },
        (None, Some(new)) => {
            let mut text = String::from_str("\n\n👔 Head Assignment:\n• \"");
            text.append(new.as_str());
            text.append("\" will be promoted to department head role");
            text
        },
        (Some(old), None) => {
            let mut text = String::from_str("\n\n👔 Head Removal:\n• \"");
            text.append(old.as_str());
            text.append("\" will be demoted from department head role");
            text
        },
        (None, None) => String::new(),
    }
}

fn quoted(before: &str, name: &str, after: &str) -> (res: String)
    ensures
        res@ == before@ + name@ + after@,
{
    let mut text = String::from_str(before);
    text.append(name);
    text.append(after);
    text
}

impl ConfirmAction {
    /// Whether the action destroys a record.
    pub open spec fn spec_destructive(action: ConfirmActionView) -> bool {
        action is DeleteDepartment || action is DeleteEmployee || action is DeleteSalaryGrade
    }

    /// The heading of the action's confirmation.
    pub open spec fn spec_title(action: ConfirmActionView) -> Seq<char> {
        match action {
            ConfirmActionView::DeleteDepartment { .. } => "🗑 Delete Department"@,
            ConfirmActionView::DeleteEmployee { .. } => "🗑 Delete Employee"@,
            ConfirmActionView::DeleteSalaryGrade { .. } => "🗑 Delete Salary Grade"@,
            ConfirmActionView::UpdateDepartment { .. } => "✏ Update Department"@,
            ConfirmActionView::UpdateEmployee { .. } => "✏ Update Employee"@,
            ConfirmActionView::UpdateSalaryGrade { .. } => "✏ Update Salary Grade"@,
            ConfirmActionView::CreateDepartment { .. } => "➕ Create Department"@,
            ConfirmActionView::CreateEmployee { .. } => "➕ Create Employee"@,
            ConfirmActionView::CreateSalaryGrade { .. } => "➕ Create Salary Grade"@,
        }
    }

    /// The words that describe the action to the user who is to confirm it.
    /// A deletion names the count of the employees that refer to the
    /// record, where there are any.
    pub open spec fn spec_message(action: ConfirmActionView) -> Seq<char> {
        match action {
            ConfirmActionView::DeleteDepartment { name, employee_count, .. } => {
                spec_delete_message("Are you sure you want to delete the department \""@, name, employee_count as nat, " employee(s) are assigned to this department.\nThey will be left without a department assignment."@)
            },
            ConfirmActionView::DeleteEmployee { name, .. } => "Are you sure you want to delete the employee \""@ + name + "\"?\n\n⚠️ This action cannot be undone.\nAll associated records will be affected."@,
            ConfirmActionView::DeleteSalaryGrade { code, employee_count, .. } => {
                spec_delete_message("Are you sure you want to delete salary grade \""@, code, employee_count as nat, " employee(s) are using this salary grade.\nThey will be left without a salary grade assignment."@)
            },
            ConfirmActionView::UpdateDepartment { name, old_head_name, new_head_name, .. } => {
                "Update department \""@ + name + "\"?"@ + spec_head_change(old_head_name, new_head_name)
            },
            ConfirmActionView::UpdateEmployee { name, .. } => "Save changes to employee \""@ + name + "\"?"@,
            ConfirmActionView::UpdateSalaryGrade { code, .. } => {
                "Update salary grade \""@ + code + "\"?\n\nℹ️ All employees with this grade will see the updated values."@
            },
            ConfirmActionView::CreateDepartment { name } => "Create new department \""@ + name + "\"?"@,
            ConfirmActionView::CreateEmployee { name } => "Create new employee \""@ + name + "\"?"@,
            ConfirmActionView::CreateSalaryGrade { code } => "Create new salary grade \""@ + code + "\"?"@,
        }
    }

    /// What the action's confirmation shows.
    pub open spec fn spec_prompt(action: ConfirmActionView) -> ConfirmPromptView {
        ConfirmPromptView {
            title: ConfirmAction::spec_title(action),
            message: ConfirmAction::spec_message(action),
            destructive: ConfirmAction::spec_destructive(action),
            confirm_label: if ConfirmAction::spec_destructive(action) {
                "Delete"@
            } else {
                "Confirm"@
            },
        }
    }

    /// Whether the action destroys a record.
    pub fn destructive(&self) -> (res: bool)
        ensures
            res == ConfirmAction::spec_destructive(self@),
    {
        match self {
            ConfirmAction::DeleteDepartment { .. } => true,
            ConfirmAction::DeleteEmployee { .. } => true,
            ConfirmAction::DeleteSalaryGrade { .. } => true,
            _ => false,
        }
    }

    /// The heading of the action's confirmation.
    pub fn title(&self) -> (res: &'static str)
        ensures
            res@ == ConfirmAction::spec_title(self@),
    {
        match self {
            ConfirmAction::DeleteDepartment { .. } => "🗑 Delete Department",
            ConfirmAction::DeleteEmployee { .. } => "🗑 Delete Employee",
            ConfirmAction::DeleteSalaryGrade { .. } => "🗑 Delete Salary Grade",
            ConfirmAction::UpdateDepartment { .. } => "✏ Update Department",
            ConfirmAction::UpdateEmployee { .. } => "✏ Update Employee",
            ConfirmAction::UpdateSalaryGrade { .. } => "✏ Update Salary Grade",
            ConfirmAction::CreateDepartment { .. } => "➕ Create Department",
            ConfirmAction::CreateEmployee { .. } => "➕ Create Employee",
            ConfirmAction::CreateSalaryGrade { .. } => "➕ Create Salary Grade",
        }
    }

    /// The words that describe the action to the user who is to confirm it.
    pub fn message(&self) -> (res: String)
        ensures
            res@ == ConfirmAction::spec_message(self@),
    {
        match self {
            ConfirmAction::DeleteDepartment { name, employee_count, .. } => delete_message(
                "Are you sure you want to delete the department \"",
                name.as_str(),
                *employee_count,
                " employee(s) are assigned to this department.\nThey will be left without a department assignment.",
            ),
            ConfirmAction::DeleteEmployee { name, .. } => quoted(
                "Are you sure you want to delete the employee \"",
                name.as_str(),
                "\"?\n\n⚠️ This action cannot be undone.\nAll associated records will be affected.",
            ),
            ConfirmAction::DeleteSalaryGrade { code, employee_count, .. } => delete_message(
                "Are you sure you want to delete salary grade \"",
                code.as_str(),
                *employee_count,
                " employee(s) are using this salary grade.\nThey will be left without a salary grade assignment.",
            ),
            ConfirmAction::UpdateDepartment { name, old_head_name, new_head_name, .. } => {
                let mut text = quoted("Update department \"", name.as_str(), "\"?");
                let change = head_change(old_head_name, new_head_name);
                text.append(change.as_str());
                text
            },
            ConfirmAction::UpdateEmployee { name, .. } => quoted(
                "Save changes to employee \"",
                name.as_str(),
                "\"?",
            ),
            ConfirmAction::UpdateSalaryGrade { code, .. } => quoted(
                "Update salary grade \"",
                code.as_str(),
                "\"?\n\nℹ️ All employees with this grade will see the updated values.",
            ),
            ConfirmAction::CreateDepartment { name } => quoted(
                "Create new department \"",
                name.as_str(),
                "\"?",
            ),
            ConfirmAction::CreateEmployee { name } => quoted("Create new employee \"", name.as_str(), "\"?"),
            ConfirmAction::CreateSalaryGrade { code } => quoted(
                "Create new salary grade \"",
                code.as_str(),
                "\"?",
            ),
        }
    }

    /// What the action's confirmation shows.
    pub fn prompt(&self) -> (res: ConfirmPrompt)
        ensures
            res@ == ConfirmAction::spec_prompt(self@),
    {
        let destructive = self.destructive();
        ConfirmPrompt {
            title: String::from_str(self.title()),
            message: self.message(),
            destructive,
            confirm_label: if destructive {
                String::from_str("Delete")
            } else {
                String::from_str("Confirm")
            },
        }
    }
}

} // verus!
