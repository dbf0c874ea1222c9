//! The folder picker: the user chooses a folder to watch.
//!
//! At most one folder dialog is outstanding. A click that arrives while the
//! dialog is open is ignored.

use crate::effect::{Effect, EffectView, Job, JobView};
use vstd::prelude::*;

verus! {

/// Label of the button that opens the folder dialog.
pub const PICK_FOLDER_LABEL: &'static str = "Pick a folder...!";

/// The state of the folder picker.
#[derive(Debug, PartialEq, Eq)]
pub struct RustFs {
    /// The folder that is watched, once one has been chosen.
    pub watching_path: Option<String>,
    /// Whether a folder dialog is outstanding.
    pub dialog_open: bool,
}

/// What can happen to the folder picker.
#[derive(Clone, Debug, PartialEq, Eq)]
pub enum RustFsEvent {
    /// The user asked for the folder dialog.
    PickFolderClicked,
    /// The folder dialog ended, with a folder or without one.
    PickFolderConfirmed(Option<String>),
}

impl View for RustFsEvent {
    type V = RustFsEvent;

    open spec fn view(&self) -> RustFsEvent {
        *self
    }
}

/// What the folder picker shows.
#[derive(Debug, PartialEq, Eq)]
pub enum RustFsView {
    /// The path of the watched folder.
    Watching(String),
    /// A button that opens the folder dialog, live unless a dialog is open.
    PickButton { label: String, on_press: Option<RustFsEvent> },
}

impl Default for RustFs {
    fn default() -> (picker: RustFs)
        ensures
            picker.watching_path is None,
            !picker.dialog_open,
    {
        RustFs { watching_path: None, dialog_open: false }
    }
}

impl RustFs {
    /// A picker that watches `watching_path` from the start.
    pub fn watching(watching_path: Option<String>) -> (picker: RustFs)
        ensures
            picker == (RustFs { watching_path, dialog_open: false }),
    {
        RustFs { watching_path, dialog_open: false }
    }

    /// The picker after one event. A dialog closed without a choice leaves
    /// the watched folder as it was.
    pub open spec fn step(self, fs_event: RustFsEvent) -> RustFs {
        match fs_event {
            RustFsEvent::PickFolderClicked => RustFs { dialog_open: true, ..self },
            RustFsEvent::PickFolderConfirmed(Some(path)) => RustFs {
                watching_path: Some(path),
                dialog_open: false,
            },
            RustFsEvent::PickFolderConfirmed(None) => RustFs { dialog_open: false, ..self },
        }
    }

    /// The deferred work that one event asks for.
    pub open spec fn effect(self, fs_event: RustFsEvent) -> EffectView<RustFsEvent> {
        if fs_event is PickFolderClicked && !self.dialog_open {
            EffectView::Async(JobView::PickFolder)
        } else {
            EffectView::Nothing
        }
    }

    /// What the picker must show in this state.
    pub open spec fn shown_as(self, shown: RustFsView) -> bool {
        match self.watching_path {
            Some(path) => shown == RustFsView::Watching(path),
            None => shown matches RustFsView::PickButton { label, on_press } && label@
                == PICK_FOLDER_LABEL@ && on_press == if self.dialog_open {
                None
            } else {
                Some(RustFsEvent::PickFolderClicked)
            },
        }
    }

    /// What the picker shows: the watched folder, or the button that picks
    /// one.
    pub fn view(&self) -> (shown: RustFsView)
        ensures
            self.shown_as(shown),
    {
        match &self.watching_path {
            Some(path) => RustFsView::Watching(path.clone()),
            None => RustFsView::PickButton {
                label: PICK_FOLDER_LABEL.to_owned(),
                on_press: if self.dialog_open {
                    None
                } else {
                    Some(RustFsEvent::PickFolderClicked)
                },
            },
        }
    }

    /// Applies one event and says what work is to follow.
    pub fn update(&mut self, fs_event: RustFsEvent) -> (effect: Effect<RustFsEvent>)
        ensures
            *final(self) == old(self).step(fs_event),
            effect@ == old(self).effect(fs_event),
            fs_event == RustFsEvent::PickFolderConfirmed(None) ==> final(self).watching_path == old(
                self,
            ).watching_path,
    {
        match fs_event {
            RustFsEvent::PickFolderClicked => {
                if self.dialog_open {
                    Effect::Nothing
                } else {
                    self.dialog_open = true;
                    Effect::Async(Job::PickFolder)
                }
            },
            RustFsEvent::PickFolderConfirmed(choice) => {
                self.dialog_open = false;
                match choice {
                    Some(path) => {
                        self.watching_path = Some(path);
                    },
                    None => {},
                }
                Effect::Nothing
            },
        }
    }

    /// The event that a closed folder dialog ends in.
    pub fn folder_picked(choice: Option<String>) -> (fs_event: RustFsEvent)
        ensures
            fs_event == RustFsEvent::PickFolderConfirmed(choice),
    {
        RustFsEvent::PickFolderConfirmed(choice)
    }
}

} // verus!
