//! Planning message and file dialogs from what the window asks for.

use vstd::prelude::*;
use crate::startup::text_of;
use crate::text::same_text;

verus! {

/// What the window asks to be shown in a dialog.
#[derive(Debug, Clone)]
pub struct DialogOptions {
    pub dialog_type: String,
    pub title: Option<String>,
    pub kind: Option<String>,
    pub ok_label: Option<String>,
    pub cancel_label: Option<String>,
    pub message: String,
    pub default_path: Option<String>,
}

/// How grave a message is.
#[derive(Clone, Copy, Debug, PartialEq, Eq, Structural)]
pub enum MessageLevel {
    Info,
    Warning,
    Error,
}

/// A message dialog, ready to be shown: its buttons, and which of them
/// stands for closing the dialog.
#[derive(Debug)]
pub struct MessagePlan {
    pub title: Option<String>,
    pub kind: MessageLevel,
    pub buttons: Vec<String>,
    pub message: String,
    pub cancel_id: Option<u32>,
}

/// The mathematical value of a [`MessagePlan`].
pub struct MessagePlanView {
    pub title: Option<Seq<char>>,
    pub kind: MessageLevel,
    pub buttons: Seq<Seq<char>>,
    pub message: Seq<char>,
    pub cancel_id: Option<u32>,
}

impl View for MessagePlan {
    type V = MessagePlanView;

    open spec fn view(&self) -> MessagePlanView {
        MessagePlanView {
            title: text_of(self.title),
            kind: self.kind,
            buttons: self.buttons@.map_values(|label: String| label@),
            message: self.message@,
            cancel_id: self.cancel_id,
        }
    }
}

/// The level that a kind names: `warning` and `error` name their own, and
/// everything else, or no kind, is information.
pub open spec fn level_named(kind: Option<Seq<char>>) -> MessageLevel {
    match kind {
        Some(name) => if name == "warning"@ {
            MessageLevel::Warning
        } else if name == "error"@ {
            MessageLevel::Error
        } else {
            MessageLevel::Info
        },
        None => MessageLevel::Info,
    }
}

/// A label, or the text to use where none is given.
pub open spec fn label_or(label: Option<Seq<char>>, fallback: Seq<char>) -> Seq<char> {
    match label {
        Some(label) => label,
        None => fallback,
    }
}

/// The buttons of a dialog of the given type, and the position of the one
/// that cancels. A message has no button of its own. A confirmation has two,
/// `OK` and `Cancel` unless labelled otherwise, and the second cancels. A
/// question has three, `Yes`, `No` unless labelled otherwise, and `Cancel`,
/// which cancels. Any other type is no dialog.
pub open spec fn buttons_of(
    dialog_type: Seq<char>,
    ok_label: Option<Seq<char>>,
    cancel_label: Option<Seq<char>>,
) -> Option<(Seq<Seq<char>>, Option<u32>)> {
    if dialog_type == "message"@ {
        Some((Seq::empty(), None))
    } else if dialog_type == "confirm"@ {
        Some((seq![label_or(ok_label, "OK"@), label_or(cancel_label, "Cancel"@)], Some(1u32)))
    } else if dialog_type == "ask"@ {
        Some((seq![label_or(ok_label, "Yes"@), label_or(cancel_label, "No"@), "Cancel"@], Some(2u32)))
    } else {
        None
    }
}

/// The message dialog that the options ask for, if they ask for one.
pub open spec fn plan_of(
    dialog_type: Seq<char>,
    title: Option<Seq<char>>,
    kind: Option<Seq<char>>,
    ok_label: Option<Seq<char>>,
    cancel_label: Option<Seq<char>>,
    message: Seq<char>,
) -> Option<MessagePlanView> {
    match buttons_of(dialog_type, ok_label, cancel_label) {
        Some((buttons, cancel_id)) => Some(
            MessagePlanView { title, kind: level_named(kind), buttons, message, cancel_id },
        ),
        None => None,
    }
}

/// The level that a kind names.
pub fn get_level(kind: &Option<String>) -> (level: MessageLevel)
    ensures
        level == level_named(text_of(*kind)),
{
    match kind {
        Some(name) => {
            if same_text(name.as_str(), "warning") {
                MessageLevel::Warning
            } else if same_text(name.as_str(), "error") {
                MessageLevel::Error
            } else {
                MessageLevel::Info
            }
        },
        None => MessageLevel::Info,
    }
}

/// The label given, or the fallback.
fn label_or_default(label: Option<String>, fallback: &str) -> (text: String)
    ensures
        text@ == label_or(text_of(label), fallback@),
{
    match label {
        Some(label) => label,
        None => fallback.to_owned(),
    }
}

/// Plans the message dialog that the options ask for. Options of an unknown
/// type ask for none.
pub fn show(info: DialogOptions) -> (plan: Option<MessagePlan>)
    ensures
        plan.is_some() == buttons_of(info.dialog_type@, text_of(info.ok_label), text_of(info.cancel_label)).is_some(),
        plan matches Some(plan) ==> Some(plan@) == plan_of(
            info.dialog_type@,
            text_of(info.title),
            text_of(info.kind),
            text_of(info.ok_label),
            text_of(info.cancel_label),
            info.message@,
        ),
{
    let kind = get_level(&info.kind);
    let DialogOptions { dialog_type, title, kind: _, ok_label, cancel_label, message, default_path: _ } = info;
    let mut buttons: Vec<String> = Vec::new();
    let ghost labels = |label: String| label@;
    if same_text(dialog_type.as_str(), "message") {
        assert(buttons@.map_values(labels) =~= Seq::<Seq<char>>::empty());
        Some(MessagePlan { title, kind, buttons, message, cancel_id: None })
    } else if same_text(dialog_type.as_str(), "confirm") {
        let first = label_or_default(ok_label, "OK");
        let second = label_or_default(cancel_label, "Cancel");
        buttons.push(first);
        buttons.push(second);
        assert(buttons@.map_values(labels) =~= seq![first@, second@]);
        Some(MessagePlan { title, kind, buttons, message, cancel_id: Some(1) })
    } else if same_text(dialog_type.as_str(), "ask") {
        let first = label_or_default(ok_label, "Yes");
        let second = label_or_default(cancel_label, "No");
        let third = "Cancel".to_owned();
        buttons.push(first);
        buttons.push(second);
        buttons.push(third);
        assert(buttons@.map_values(labels) =~= seq![first@, second@, third@]);
        Some(MessagePlan { title, kind, buttons, message, cancel_id: Some(2) })
    } else {
        None
    }
}

/// A file dialog, ready to be shown.
#[derive(Debug)]
pub struct FilePlan {
    pub title: Option<String>,
    pub default_path: Option<String>,
}

/// Plans the dialog in which one file is chosen to be opened.
pub fn show_file_dialog(option: DialogOptions) -> (plan: FilePlan)
    ensures
        plan.title == option.title,
        plan.default_path == option.default_path,
{
    FilePlan { title: option.title, default_path: option.default_path }
}

/// Plans the dialog in which the place to save a file is chosen.
pub fn show_save_dialog(option: DialogOptions) -> (plan: FilePlan)
    ensures
        plan.title == option.title,
        plan.default_path == option.default_path,
{
    FilePlan { title: option.title, default_path: option.default_path }
}

/// The path chosen in a file dialog: none where the dialog was cancelled,
/// else the first of the paths it gives. A dialog that was not cancelled
/// gives at least one path.
pub fn chosen_path(canceled: bool, file_paths: &Vec<String>) -> (path: Option<String>)
    requires
        canceled || file_paths.len() > 0,
    ensures
        canceled ==> path is None,
        !canceled ==> path == Some(file_paths[0]),
{
    if canceled {
        None
    } else {
        Some(file_paths[0].clone())
    }
}

} // verus!
