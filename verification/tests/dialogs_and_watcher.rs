use content_search::dialog::chosen_path;
use content_search::dialog::get_level;
use content_search::dialog::show;
use content_search::dialog::show_file_dialog;
use content_search::dialog::show_save_dialog;
use content_search::dialog::DialogOptions;
use content_search::dialog::MessageLevel;
use content_search::menu::change_theme;
use content_search::menu::MenuTheme;
use content_search::menu::WindowTheme;
use content_search::watcher::changed_paths;
use content_search::watcher::check_changes;
use content_search::watcher::handle_event;
use content_search::watcher::is_modified;
use content_search::watcher::on_command;
use content_search::watcher::ChangeKind;
use content_search::watcher::FileChange;
use content_search::watcher::ModifyKind;
use content_search::watcher::WatcherAction;
use content_search::watcher::WatcherCommand;

fn options(dialog_type: &str) -> DialogOptions {
    DialogOptions {
        dialog_type: dialog_type.to_string(),
        title: Some("Title".to_string()),
        kind: Some("warning".to_string()),
        ok_label: None,
        cancel_label: None,
        message: "Really?".to_string(),
        default_path: Some("/home".to_string()),
    }
}

#[test]
fn levels_are_named() {
    assert_eq!(get_level(&Some("info".to_string())), MessageLevel::Info);
    assert_eq!(get_level(&Some("warning".to_string())), MessageLevel::Warning);
    assert_eq!(get_level(&Some("error".to_string())), MessageLevel::Error);
    assert_eq!(get_level(&Some("Error".to_string())), MessageLevel::Info);
    assert_eq!(get_level(&Some(String::new())), MessageLevel::Info);
    assert_eq!(get_level(&None), MessageLevel::Info);
}

#[test]
fn a_message_has_no_buttons_of_its_own() {
    let plan = show(options("message")).unwrap();
    assert_eq!(plan.title.as_deref(), Some("Title"));
    assert_eq!(plan.kind, MessageLevel::Warning);
    assert!(plan.buttons.is_empty());
    assert_eq!(plan.message, "Really?");
    assert_eq!(plan.cancel_id, None);
}

#[test]
fn a_confirmation_has_two_buttons() {
    let plan = show(options("confirm")).unwrap();
    assert_eq!(plan.buttons, vec!["OK".to_string(), "Cancel".to_string()]);
    assert_eq!(plan.cancel_id, Some(1));

    let mut labelled = options("confirm");
    labelled.ok_label = Some("Save".to_string());
    labelled.cancel_label = Some("Discard".to_string());
    labelled.kind = None;
    let plan = show(labelled).unwrap();
    assert_eq!(plan.buttons, vec!["Save".to_string(), "Discard".to_string()]);
    assert_eq!(plan.kind, MessageLevel::Info);
}

#[test]
fn a_question_has_three_buttons() {
    let plan = show(options("ask")).unwrap();
    assert_eq!(plan.buttons, vec!["Yes".to_string(), "No".to_string(), "Cancel".to_string()]);
    assert_eq!(plan.cancel_id, Some(2));

    let mut labelled = options("ask");
    labelled.cancel_label = Some("Never".to_string());
    let plan = show(labelled).unwrap();
    assert_eq!(plan.buttons, vec!["Yes".to_string(), "Never".to_string(), "Cancel".to_string()]);
}

#[test]
fn an_unknown_type_is_no_dialog() {
    assert!(show(options("prompt")).is_none());
    assert!(show(options("")).is_none());
    assert!(show(options("Message")).is_none());
}

#[test]
fn file_dialogs_take_title_and_path() {
    let open = show_file_dialog(options("open"));
    assert_eq!(open.title.as_deref(), Some("Title"));
    assert_eq!(open.default_path.as_deref(), Some("/home"));
    let mut bare = options("save");
    bare.title = None;
    bare.default_path = None;
    let save = show_save_dialog(bare);
    assert_eq!(save.title, None);
    assert_eq!(save.default_path, None);
}

#[test]
fn the_first_path_is_chosen_unless_cancelled() {
    let paths = vec!["/a".to_string(), "/b".to_string()];
    assert_eq!(chosen_path(false, &paths), Some("/a".to_string()));
    assert_eq!(chosen_path(true, &paths), None);
    assert_eq!(chosen_path(true, &Vec::new()), None);
}

#[test]
fn themes_are_named() {
    assert_eq!(change_theme("dark"), (WindowTheme::Dark, MenuTheme::Dark));
    assert_eq!(change_theme("light"), (WindowTheme::Light, MenuTheme::Light));
    assert_eq!(change_theme("system"), (WindowTheme::Light, MenuTheme::System));
    assert_eq!(change_theme(""), (WindowTheme::Light, MenuTheme::System));
    assert_eq!(change_theme("Dark"), (WindowTheme::Light, MenuTheme::System));
}

#[test]
fn modifications_but_for_renames_count() {
    assert!(is_modified(ChangeKind::Modify(ModifyKind::Any)));
    assert!(is_modified(ChangeKind::Modify(ModifyKind::Data)));
    assert!(is_modified(ChangeKind::Modify(ModifyKind::Metadata)));
    assert!(is_modified(ChangeKind::Modify(ModifyKind::Other)));
    assert!(!is_modified(ChangeKind::Modify(ModifyKind::Name)));
    assert!(!is_modified(ChangeKind::Any));
    assert!(!is_modified(ChangeKind::Access));
    assert!(!is_modified(ChangeKind::Create));
    assert!(!is_modified(ChangeKind::Remove));
    assert!(!is_modified(ChangeKind::Other));
}

#[test]
fn commands_become_actions() {
    assert!(matches!(on_command(Some(WatcherCommand::Watch("/f".to_string()))), WatcherAction::Watch(p) if p == "/f"));
    assert!(matches!(on_command(Some(WatcherCommand::Unwatch("/g".to_string()))), WatcherAction::Unwatch(p) if p == "/g"));
    assert!(matches!(on_command(None), WatcherAction::Stop));
}

fn change(kind: ChangeKind, paths: &[&str]) -> FileChange {
    FileChange { kind, paths: paths.iter().map(|p| p.to_string()).collect() }
}

#[test]
fn modified_files_are_read_again_in_order() {
    let batch = vec![
        change(ChangeKind::Create, &["/new"]),
        change(ChangeKind::Modify(ModifyKind::Data), &["/a", "/ignored"]),
        change(ChangeKind::Modify(ModifyKind::Name), &["/old", "/renamed"]),
        change(ChangeKind::Remove, &[]),
        change(ChangeKind::Modify(ModifyKind::Metadata), &["/b"]),
        change(ChangeKind::Modify(ModifyKind::Data), &["/a"]),
    ];
    assert!(check_changes(&batch));
    assert_eq!(changed_paths(&batch), vec!["/a".to_string(), "/b".to_string(), "/a".to_string()]);
    assert!(changed_paths(&Vec::new()).is_empty());
}

#[test]
fn a_modification_without_a_path_is_found_out() {
    let batch = vec![change(ChangeKind::Modify(ModifyKind::Data), &["/a"]), change(ChangeKind::Modify(ModifyKind::Any), &[])];
    assert!(!check_changes(&batch));
    assert!(check_changes(&vec![change(ChangeKind::Create, &[])]));
}

#[test]
fn a_changed_file_is_reported_with_its_text() {
    let event = handle_event("/f".to_string(), b"new text");
    assert_eq!(event.file_path, "/f");
    assert_eq!(event.content, "new text");
    assert_eq!(event.encoding, "UTF-8");
}

#[test]
fn a_position_holds_its_coordinates() {
    let position = content_search::menu::Position { x: -3, y: 40 };
    let copy = position;
    assert_eq!((position.x, position.y), (-3, 40));
    assert_eq!(copy, position);
}
