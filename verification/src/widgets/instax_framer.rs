//! The image framer slice: the user picks an image file, the file is decoded
//! in the background, and the picture or the failure is shown.
//!
//! At most one dialog and one decode are outstanding at any time. A request
//! that arrives while its predecessor is pending is ignored.

use crate::effect::{Effect, EffectView, Job, JobView};
use image::{DynamicImage, ImageError};
use vstd::prelude::*;
use vstd::string::StringExecFns;

verus! {

/// Title of the alert that reports a failed load.
pub const ALERT_TITLE: &'static str = "Image loading failed...!";

/// Start of the alert's text; the path of the file follows.
pub const ALERT_TEXT: &'static str = "Failed to load image at ";

/// Stands for the path in the alert where no file was selected.
pub const UNKNOWN_PATH: &'static str = "Unknown";

/// Label of the button that opens the file dialog.
pub const PICK_LABEL: &'static str = "Pick an image file";

/// Shown while the picture is not there.
pub const LOADING_LABEL: &'static str = "Loading...";

/// `image::DynamicImage`: a decoded picture. It is carried from the decoder
/// to the state and never looked into.
#[verifier::external_type_specification]
#[verifier::external_body]
pub struct ExDynamicImage(DynamicImage);

/// `image::ImageError`: why a decode failed. Nothing is read from it.
#[verifier::external_type_specification]
#[verifier::external_body]
pub struct ExImageError(ImageError);

/// `DynamicImage::clone` copies the picture. Nothing is claimed of the copy;
/// no proof here looks at one.
pub assume_specification[ <DynamicImage as Clone>::clone ](image: &DynamicImage) -> (copy:
    DynamicImage)
;

/// How far the selected image has come.
#[derive(Clone, Debug, PartialEq)]
pub enum LoadStatus {
    Idle,
    Loading,
    Loaded(DynamicImage),
    Failed,
}

/// What can happen to the image framer.
#[derive(Clone, Debug, PartialEq)]
pub enum InstaxFramerMessage {
    /// The user asked for the file dialog.
    PickImage,
    /// The file dialog ended with this file.
    ImagePicked(String),
    /// The file dialog was closed without a selection.
    PickCancelled,
    ImageLoadingFailed,
    ImageLoadingFinished(DynamicImage),
}

impl View for InstaxFramerMessage {
    type V = InstaxFramerMessage;

    open spec fn view(&self) -> InstaxFramerMessage {
        *self
    }
}

/// The mathematical value of an [`InstaxFramer`].
pub struct InstaxFramerModel {
    pub selected_path: Option<String>,
    pub load_status: LoadStatus,
    /// Whether a file dialog is outstanding.
    pub dialog_open: bool,
}

impl InstaxFramerModel {
    /// The framer a fresh application starts with.
    pub open spec fn initial() -> InstaxFramerModel {
        InstaxFramerModel { selected_path: None, load_status: LoadStatus::Idle, dialog_open: false }
    }

    /// A load has begun only for a selected file, and a dialog is open only
    /// while nothing has been loaded.
    pub open spec fn wf(self) -> bool {
        &&& !(self.load_status is Idle) ==> self.selected_path is Some
        &&& self.dialog_open ==> self.load_status is Idle
    }

    /// Whether a request for the file dialog is taken up.
    pub open spec fn can_pick(self) -> bool {
        self.load_status is Idle && !self.dialog_open
    }

    /// The framer after one message.
    ///
    /// The status only ever moves from idle to loading, and from loading to
    /// loaded or failed; a message that would take another way is ignored.
    pub open spec fn step(self, message: InstaxFramerMessage) -> InstaxFramerModel {
        match message {
            InstaxFramerMessage::PickImage => if self.can_pick() {
                InstaxFramerModel { dialog_open: true, ..self }
            } else {
                self
            },
            InstaxFramerMessage::PickCancelled => InstaxFramerModel { dialog_open: false, ..self },
            InstaxFramerMessage::ImagePicked(path) => if self.load_status is Idle {
                InstaxFramerModel {
                    selected_path: Some(path),
                    load_status: LoadStatus::Loading,
                    dialog_open: false,
                }
            } else {
                self
            },
            InstaxFramerMessage::ImageLoadingFinished(image) => if self.load_status is Loading {
                InstaxFramerModel { load_status: LoadStatus::Loaded(image), ..self }
            } else {
                self
            },
            InstaxFramerMessage::ImageLoadingFailed => if self.load_status is Loading {
                InstaxFramerModel { load_status: LoadStatus::Failed, ..self }
            } else {
                self
            },
        }
    }

    /// What a framer in this state must show: the pick button while nothing
    /// is selected, the picture once it is loaded, a placeholder in between.
    pub open spec fn shown_as(self, shown: InstaxFramerView) -> bool {
        match self.selected_path {
            None => shown matches InstaxFramerView::PickButton { label, on_press } && label@
                == PICK_LABEL@ && (on_press is Some <==> self.can_pick()),
            Some(path) => if self.load_status is Loaded {
                shown == InstaxFramerView::Picture(path)
            } else {
                shown matches InstaxFramerView::Placeholder(text) && text@ == LOADING_LABEL@
            },
        }
    }

    /// The work that a framer in this state begins with: the load of the
    /// file that is selected at start, if there is one.
    pub open spec fn start_up(self) -> EffectView<InstaxFramerMessage> {
        match self.selected_path {
            Some(path) => EffectView::Immediate(InstaxFramerMessage::ImagePicked(path)),
            None => EffectView::Nothing,
        }
    }

    /// The path as the failure alert names it.
    pub open spec fn alert_path(self) -> Seq<char> {
        match self.selected_path {
            Some(path) => path@,
            None => UNKNOWN_PATH@,
        }
    }

    /// The deferred work that one message asks for.
    pub open spec fn effect(self, message: InstaxFramerMessage) -> EffectView<
        InstaxFramerMessage,
    > {
        match message {
            InstaxFramerMessage::PickImage => if self.can_pick() {
                EffectView::Async(JobView::PickImageFile)
            } else {
                EffectView::Nothing
            },
            InstaxFramerMessage::ImagePicked(path) => if self.load_status is Idle {
                EffectView::Async(JobView::LoadImage(path@))
            } else {
                EffectView::Nothing
            },
            InstaxFramerMessage::ImageLoadingFailed => if self.load_status is Loading {
                EffectView::Async(
                    JobView::Alert { title: ALERT_TITLE@, text: ALERT_TEXT@ + self.alert_path() },
                )
            } else {
                EffectView::Nothing
            },
            _ => EffectView::Nothing,
        }
    }
}

/// The state of the image framer slice.
#[derive(Debug, PartialEq)]
pub struct InstaxFramer {
    selected_path: Option<String>,
    load_status: LoadStatus,
    dialog_open: bool,
}

/// What the image framer shows.
#[derive(Debug, PartialEq, Eq)]
pub enum InstaxFramerView {
    /// Nothing is selected: a button that opens the file dialog, live unless
    /// a dialog is open already.
    PickButton { label: String, on_press: Option<PickRequest> },
    /// A file is selected and its picture is not there: a placeholder text.
    Placeholder(String),
    /// The picture of the file at this path.
    Picture(String),
}

/// The one message that the pick button sends.
#[derive(Clone, Copy, Debug, PartialEq, Eq)]
pub struct PickRequest;

impl PickRequest {
    /// The message that the press of the button stands for.
    pub fn message(self) -> (message: InstaxFramerMessage)
        ensures
            message == InstaxFramerMessage::PickImage,
    {
        InstaxFramerMessage::PickImage
    }
}

/// Decodes an image held in memory, guessing its format from its content.
///
/// Calls `image::load_from_memory`. Nothing is claimed of the outcome: it
/// depends on the bytes, on the decoders that are registered in the process
/// at that moment, and on the routines that the decoder picks for the
/// processor it runs on.
#[verifier::external_body]
fn decode(bytes: &[u8]) -> (decoded: Result<DynamicImage, ImageError>) {
    image::load_from_memory(bytes)
}

impl InstaxFramer {
    /// The mathematical value of this framer.
    pub closed spec fn model(&self) -> InstaxFramerModel {
        InstaxFramerModel {
            selected_path: self.selected_path,
            load_status: self.load_status,
            dialog_open: self.dialog_open,
        }
    }

    /// A framer with nothing selected.
    pub fn init() -> (framer: InstaxFramer)
        ensures
            framer.model() == InstaxFramerModel::initial(),
            framer.model().wf(),
    {
        InstaxFramer { selected_path: None, load_status: LoadStatus::Idle, dialog_open: false }
    }

    /// A framer whose file is already known at start; its load begins with
    /// the effect of [`InstaxFramer::start_up_tasks`].
    pub fn with_selected(path: String) -> (framer: InstaxFramer)
        ensures
            framer.model() == (InstaxFramerModel {
                selected_path: Some(path),
                ..InstaxFramerModel::initial()
            }),
            framer.model().wf(),
    {
        InstaxFramer {
            selected_path: Some(path),
            load_status: LoadStatus::Idle,
            dialog_open: false,
        }
    }

    pub fn selected_path(&self) -> (path: &Option<String>)
        ensures
            *path == self.model().selected_path,
    {
        &self.selected_path
    }

    pub fn load_status(&self) -> (status: &LoadStatus)
        ensures
            *status == self.model().load_status,
    {
        &self.load_status
    }

    pub fn dialog_open(&self) -> (open: bool)
        ensures
            open == self.model().dialog_open,
    {
        self.dialog_open
    }

    /// Applies one message and says what work is to follow.
    ///
    /// A picked file starts its load; a failed load ends in exactly one
    /// alert that names the file. Requests that arrive out of turn change
    /// nothing and ask for nothing.
    pub fn update(&mut self, message: InstaxFramerMessage) -> (effect: Effect<InstaxFramerMessage>)
        ensures
            final(self).model() == old(self).model().step(message),
            effect@ == old(self).model().effect(message),
            old(self).model().wf() ==> final(self).model().wf(),
    {
        match message {
            InstaxFramerMessage::PickImage => {
                if matches!(self.load_status, LoadStatus::Idle) && !self.dialog_open {
                    self.dialog_open = true;
                    Effect::Async(Job::PickImageFile)
                } else {
                    Effect::Nothing
                }
            },
            InstaxFramerMessage::PickCancelled => {
                self.dialog_open = false;
                Effect::Nothing
            },
            InstaxFramerMessage::ImagePicked(path) => {
                if matches!(self.load_status, LoadStatus::Idle) {
                    let job = Job::LoadImage(path.clone());
                    self.selected_path = Some(path);
                    self.load_status = LoadStatus::Loading;
                    self.dialog_open = false;
                    Effect::Async(job)
                } else {
                    Effect::Nothing
                }
            },
            InstaxFramerMessage::ImageLoadingFinished(image) => {
                if matches!(self.load_status, LoadStatus::Loading) {
                    self.load_status = LoadStatus::Loaded(image);
                }
                Effect::Nothing
            },
            InstaxFramerMessage::ImageLoadingFailed => {
                if matches!(self.load_status, LoadStatus::Loading) {
                    self.load_status = LoadStatus::Failed;
                    let mut text = ALERT_TEXT.to_owned();
                    match &self.selected_path {
                        Some(path) => text.append(path.as_str()),
                        None => text.append(UNKNOWN_PATH),
                    }
                    Effect::Async(Job::Alert { title: ALERT_TITLE.to_owned(), text })
                } else {
                    Effect::Nothing
                }
            },
        }
    }

    /// What the framer shows.
    pub fn view(&self) -> (shown: InstaxFramerView)
        ensures
            self.model().shown_as(shown),
    {
        match &self.selected_path {
            None => InstaxFramerView::PickButton {
                label: PICK_LABEL.to_owned(),
                on_press: if matches!(self.load_status, LoadStatus::Idle) && !self.dialog_open {
                    Some(PickRequest)
                } else {
                    None
                },
            },
            Some(path) => if matches!(self.load_status, LoadStatus::Loaded(_)) {
                InstaxFramerView::Picture(path.clone())
            } else {
                InstaxFramerView::Placeholder(LOADING_LABEL.to_owned())
            },
        }
    }

    /// The work to begin with: the load of the file that is selected at
    /// start, if there is one.
    pub fn start_up_tasks(&self) -> (effect: Effect<InstaxFramerMessage>)
        ensures
            effect@ == self.model().start_up(),
    {
        match &self.selected_path {
            Some(path) => Effect::Immediate(InstaxFramerMessage::ImagePicked(path.clone())),
            None => Effect::Nothing,
        }
    }

    /// The message that a closed file dialog ends in.
    pub fn image_picked(choice: Option<String>) -> (message: InstaxFramerMessage)
        ensures
            message == match choice {
                Some(path) => InstaxFramerMessage::ImagePicked(path),
                None => InstaxFramerMessage::PickCancelled,
            },
    {
        match choice {
            Some(path) => InstaxFramerMessage::ImagePicked(path),
            None => InstaxFramerMessage::PickCancelled,
        }
    }

    /// The message that a finished decode ends in.
    pub fn decode_outcome(decoded: Result<DynamicImage, ImageError>) -> (message:
        InstaxFramerMessage)
        ensures
            message == match decoded {
                Ok(image) => InstaxFramerMessage::ImageLoadingFinished(image),
                Err(_) => InstaxFramerMessage::ImageLoadingFailed,
            },
    {
        match decoded {
            Ok(image) => InstaxFramerMessage::ImageLoadingFinished(image),
            Err(_) => InstaxFramerMessage::ImageLoadingFailed,
        }
    }

    /// The message that a finished load ends in: decodes the contents of the
    /// file, where it could be read. An unreadable file is a failed load, and
    /// so is one that the decoder rejects.
    pub fn image_loaded(contents: Option<Vec<u8>>) -> (message: InstaxFramerMessage)
        ensures
            message is ImageLoadingFinished || message is ImageLoadingFailed,
            contents is None ==> message is ImageLoadingFailed,
    {
        match contents {
            Some(bytes) => InstaxFramer::decode_outcome(decode(bytes.as_slice())),
            None => InstaxFramerMessage::ImageLoadingFailed,
        }
    }
}

/// Every message leads from a well-formed framer to a well-formed framer.
pub proof fn lemma_step_keeps_wf(framer: InstaxFramerModel, message: InstaxFramerMessage)
    requires
        framer.wf(),
    ensures
        framer.step(message).wf(),
{
}

/// The status moves only from idle to loading and from loading to loaded or
/// failed; every other message leaves it where it is.
pub proof fn lemma_status_moves_forward_only(framer: InstaxFramerModel, message: InstaxFramerMessage)
    ensures
        ({
            let before = framer.load_status;
            let after = framer.step(message).load_status;
            ||| after == before
            ||| before is Idle && after is Loading
            ||| before is Loading && (after is Loaded || after is Failed)
        }),
{
}

/// A message asks for at most one job, and for a job only when it moves the
/// framer: a request that is ignored asks for nothing.
pub proof fn lemma_ignored_request_asks_for_nothing(
    framer: InstaxFramerModel,
    message: InstaxFramerMessage,
)
    requires
        framer.step(message) == framer,
    ensures
        framer.effect(message) == EffectView::<InstaxFramerMessage>::Nothing,
{
}

/// A failed load ends in exactly one alert, which names the selected file.
pub proof fn lemma_failed_load_alerts_once(framer: InstaxFramerModel)
    requires
        framer.wf(),
        framer.load_status is Loading,
    ensures
        framer.step(InstaxFramerMessage::ImageLoadingFailed).load_status is Failed,
        framer.effect(InstaxFramerMessage::ImageLoadingFailed) == EffectView::<
            InstaxFramerMessage,
        >::Async(
            JobView::Alert {
                title: ALERT_TITLE@,
                text: ALERT_TEXT@ + framer.selected_path->Some_0@,
            },
        ),
{
}

} // verus!
