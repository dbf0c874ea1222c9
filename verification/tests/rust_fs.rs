use omni_app::effect::{Effect, Job};
use omni_app::rust_fs::{RustFs, RustFsEvent, RustFsView};

#[test]
fn folder_picker_starts_empty_by_default() {
    let picker = RustFs::default();
    assert_eq!(picker.watching_path, None);
    assert!(!picker.dialog_open);
    assert_eq!(picker, RustFs::watching(None));
}

#[test]
fn folder_pick_round_trip_sets_the_watched_path() {
    let mut picker = RustFs::default();
    assert_eq!(picker.update(RustFsEvent::PickFolderClicked), Effect::Async(Job::PickFolder));
    assert!(picker.dialog_open);
    let effect = picker.update(RustFsEvent::PickFolderConfirmed(Some("/home/me".to_string())));
    assert_eq!(effect, Effect::Nothing);
    assert_eq!(picker.watching_path, Some("/home/me".to_string()));
    assert!(!picker.dialog_open);
}

#[test]
fn cancelled_folder_dialog_leaves_the_path_unchanged() {
    let mut picker = RustFs::watching(Some("/home/me/Downloads".to_string()));
    picker.update(RustFsEvent::PickFolderClicked);
    assert_eq!(picker.update(RustFsEvent::PickFolderConfirmed(None)), Effect::Nothing);
    assert_eq!(picker, RustFs::watching(Some("/home/me/Downloads".to_string())));

    let mut empty = RustFs::default();
    empty.update(RustFsEvent::PickFolderClicked);
    empty.update(RustFsEvent::PickFolderConfirmed(None));
    assert_eq!(empty, RustFs::default());
}

#[test]
fn second_folder_click_is_ignored_while_the_dialog_is_open() {
    let mut picker = RustFs::default();
    picker.update(RustFsEvent::PickFolderClicked);
    assert_eq!(picker.update(RustFsEvent::PickFolderClicked), Effect::Nothing);
    assert!(picker.dialog_open);
    picker.update(RustFsEvent::PickFolderConfirmed(None));
    assert_eq!(picker.update(RustFsEvent::PickFolderClicked), Effect::Async(Job::PickFolder));
}

#[test]
fn folder_picker_view_follows_the_state() {
    let mut picker = RustFs::default();
    assert_eq!(
        picker.view(),
        RustFsView::PickButton {
            label: "Pick a folder...!".to_string(),
            on_press: Some(RustFsEvent::PickFolderClicked),
        }
    );
    picker.update(RustFsEvent::PickFolderClicked);
    assert_eq!(
        picker.view(),
        RustFsView::PickButton { label: "Pick a folder...!".to_string(), on_press: None }
    );
    picker.update(RustFsEvent::PickFolderConfirmed(Some("/data".to_string())));
    assert_eq!(picker.view(), RustFsView::Watching("/data".to_string()));
}

#[test]
fn closed_folder_dialog_ends_in_one_event() {
    assert_eq!(
        RustFs::folder_picked(Some("/data".to_string())),
        RustFsEvent::PickFolderConfirmed(Some("/data".to_string()))
    );
    assert_eq!(RustFs::folder_picked(None), RustFsEvent::PickFolderConfirmed(None));
}
