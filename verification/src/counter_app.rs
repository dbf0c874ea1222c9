//! The counter application in one piece: a counter, the theme preferences,
//! the system information and a folder picker, under one message type.

use crate::counter_themes::{
    all_theme_modes, all_themes, get_system_theme_mode, is_known_theme, is_theme_name, texts,
    theme_modes, theme_names, ThemeMode, GRUVBOX,
};
use crate::effect::{
    retagged, source_views, Effect, EffectView, Envelope, Job, JobView, Outcome,
    SubscriptionHandle, SubscriptionView,
};
use crate::features::counter;
use crate::features::counter::{CounterModel, CounterView};
use crate::features::omni_themes::OmniThemesView;
use crate::rust_fs::{RustFs, RustFsEvent, RustFsView};
use crate::system_info::SystemInformation;
use vstd::prelude::*;

verus! {

/// The state of the application.
#[derive(Debug, PartialEq, Eq)]
pub struct CounterApp {
    pub value: isize,
    pub allow_negative: bool,
    pub auto_increment_enabled: bool,
    pub application_theme_mode: ThemeMode,
    pub system_theme_mode: ThemeMode,
    pub theme_name: String,
    pub system_info: Option<SystemInformation>,
    pub rust_fs: RustFs,
}

/// A message to the application.
#[derive(Clone, Debug, PartialEq, Eq)]
pub enum CounterMessage {
    AutoIncrement,
    ToggleAutoIncrement(bool),
    Increment,
    Decrement,
    Reset,
    ToggleAllowNegative(bool),
    ChangeThemeMode(ThemeMode),
    SwitchTheme(String),
    NoOp,
    SystemInfoLoaded(SystemInformation),
    RustFs(RustFsEvent),
}

impl View for CounterMessage {
    type V = CounterMessage;

    open spec fn view(&self) -> CounterMessage {
        *self
    }
}

impl CounterMessage {
    /// The message to the counter that this message stands for, if it is
    /// one.
    pub open spec fn counter_event(self) -> Option<counter::CounterMessage> {
        match self {
            CounterMessage::AutoIncrement => Some(counter::CounterMessage::AutoIncrement),
            CounterMessage::ToggleAutoIncrement(enabled) => Some(
                counter::CounterMessage::ToggleAutoIncrement(enabled),
            ),
            CounterMessage::Increment => Some(counter::CounterMessage::Increment),
            CounterMessage::Decrement => Some(counter::CounterMessage::Decrement),
            CounterMessage::Reset => Some(counter::CounterMessage::Reset),
            CounterMessage::ToggleAllowNegative(allowed) => Some(
                counter::CounterMessage::ToggleAllowNegative(allowed),
            ),
            _ => None,
        }
    }
}

impl Envelope<counter::CounterMessage> for CounterMessage {
    open spec fn enclosing(message: counter::CounterMessage) -> CounterMessage {
        match message {
            counter::CounterMessage::AutoIncrement => CounterMessage::AutoIncrement,
            counter::CounterMessage::ToggleAutoIncrement(enabled) => {
                CounterMessage::ToggleAutoIncrement(enabled)
            },
            counter::CounterMessage::Increment => CounterMessage::Increment,
            counter::CounterMessage::Decrement => CounterMessage::Decrement,
            counter::CounterMessage::Reset => CounterMessage::Reset,
            counter::CounterMessage::ToggleAllowNegative(allowed) => {
                CounterMessage::ToggleAllowNegative(allowed)
            },
        }
    }

    fn enclose(message: counter::CounterMessage) -> (envelope: CounterMessage) {
        match message {
            counter::CounterMessage::AutoIncrement => CounterMessage::AutoIncrement,
            counter::CounterMessage::ToggleAutoIncrement(enabled) => {
                CounterMessage::ToggleAutoIncrement(enabled)
            },
            counter::CounterMessage::Increment => CounterMessage::Increment,
            counter::CounterMessage::Decrement => CounterMessage::Decrement,
            counter::CounterMessage::Reset => CounterMessage::Reset,
            counter::CounterMessage::ToggleAllowNegative(allowed) => {
                CounterMessage::ToggleAllowNegative(allowed)
            },
        }
    }
}

impl Envelope<RustFsEvent> for CounterMessage {
    open spec fn enclosing(message: RustFsEvent) -> CounterMessage {
        CounterMessage::RustFs(message)
    }

    fn enclose(message: RustFsEvent) -> (envelope: CounterMessage) {
        CounterMessage::RustFs(message)
    }
}

/// What the application shows.
#[derive(Debug, PartialEq, Eq)]
pub struct CounterAppView {
    pub themes: OmniThemesView,
    pub counter: CounterView,
    pub rust_fs: RustFsView,
}

/// The mathematical value of a [`CounterApp`].
pub struct CounterAppModel {
    pub counter: CounterModel,
    pub application_theme_mode: ThemeMode,
    pub system_theme_mode: ThemeMode,
    pub theme_name: String,
    pub system_info: Option<SystemInformation>,
    pub rust_fs: RustFs,
}

impl CounterAppModel {
    /// Whether the message is applied as it stands. The one message that is
    /// not is a message to the counter that would take it out of the range
    /// of its machine integer: it is ignored.
    pub open spec fn accepts(self, message: CounterMessage) -> bool {
        match message.counter_event() {
            Some(counter_event) => self.counter.unbounded_step(counter_event).representable(),
            None => true,
        }
    }

    /// The application after one message.
    ///
    /// A message to the counter moves the counter, a theme message changes
    /// the theme preferences and never the detected mode of the system, and
    /// an event of the folder picker is handed to the picker. A palette name
    /// outside the known set is not stored.
    pub open spec fn step(self, message: CounterMessage) -> CounterAppModel {
        match message {
            CounterMessage::ChangeThemeMode(theme_mode) => CounterAppModel {
                application_theme_mode: theme_mode,
                ..self
            },
            CounterMessage::SwitchTheme(theme_name) => if is_known_theme(theme_name@) {
                CounterAppModel { theme_name, ..self }
            } else {
                self
            },
            CounterMessage::NoOp => self,
            CounterMessage::SystemInfoLoaded(info) => CounterAppModel {
                system_info: Some(info),
                ..self
            },
            CounterMessage::RustFs(fs_event) => CounterAppModel {
                rust_fs: self.rust_fs.step(fs_event),
                ..self
            },
            _ => match message.counter_event() {
                Some(counter_event) => CounterAppModel {
                    counter: self.counter.step(counter_event),
                    ..self
                },
                None => self,
            },
        }
    }

    /// The deferred work that one message asks for: what the folder picker
    /// asks for, re-tagged for the application.
    pub open spec fn effect(self, message: CounterMessage) -> EffectView<CounterMessage> {
        match message {
            CounterMessage::RustFs(fs_event) => retagged::<RustFsEvent, CounterMessage>(
                self.rust_fs.effect(fs_event),
            ),
            _ => EffectView::Nothing,
        }
    }

    /// The long-lived sources that the application listens to: the
    /// one-second timer that drives automatic increments.
    pub open spec fn subscriptions() -> Seq<SubscriptionView<CounterMessage>> {
        seq![SubscriptionView::Every { seconds: 1, message: CounterMessage::AutoIncrement }]
    }
}

impl CounterApp {
    /// The mathematical value of this application.
    pub open spec fn model(&self) -> CounterAppModel {
        CounterAppModel {
            counter: CounterModel {
                value: self.value as int,
                allow_negative: self.allow_negative,
                auto_increment_enabled: self.auto_increment_enabled,
            },
            application_theme_mode: self.application_theme_mode,
            system_theme_mode: self.system_theme_mode,
            theme_name: self.theme_name,
            system_info: self.system_info,
            rust_fs: self.rust_fs,
        }
    }

    /// The application at start, over a given mode of the system and with a
    /// folder that is watched from the start, if any.
    pub fn with_system_mode(system_theme_mode: ThemeMode, watching_path: Option<String>) -> (app:
        CounterApp)
        ensures
            app.model().counter == CounterModel::initial(),
            app.application_theme_mode == ThemeMode::SystemDefault,
            app.system_theme_mode == system_theme_mode,
            app.theme_name@ == GRUVBOX@,
            app.system_info is None,
            app.rust_fs == (RustFs { watching_path, dialog_open: false }),
    {
        CounterApp {
            value: 0,
            allow_negative: true,
            auto_increment_enabled: false,
            application_theme_mode: ThemeMode::SystemDefault,
            system_theme_mode,
            theme_name: GRUVBOX.to_owned(),
            system_info: None,
            rust_fs: RustFs::watching(watching_path),
        }
    }

    /// The application at start, over the mode that the operating system
    /// reports at this moment.
    pub fn new(watching_path: Option<String>) -> (app: CounterApp)
        ensures
            app.model().counter == CounterModel::initial(),
            app.application_theme_mode == ThemeMode::SystemDefault,
            app.theme_name@ == GRUVBOX@,
            app.system_info is None,
            app.rust_fs == (RustFs { watching_path, dialog_open: false }),
    {
        CounterApp::with_system_mode(get_system_theme_mode(), watching_path)
    }

    /// Whether `message` is applied as it stands, rather than ignored at the
    /// end of the counter's range.
    pub fn accepts(&self, message: &CounterMessage) -> (fits: bool)
        ensures
            fits == self.model().accepts(*message),
    {
        match message {
            CounterMessage::AutoIncrement => !self.auto_increment_enabled || self.value
                < isize::MAX,
            CounterMessage::Increment => self.value < isize::MAX,
            CounterMessage::Decrement => !(self.value > 0 || self.allow_negative) || self.value
                > isize::MIN,
            _ => true,
        }
    }

    /// Applies one message and says what work is to follow. Every message is
    /// taken in every state; a count beyond the range of the counter is
    /// ignored.
    pub fn update(&mut self, message: CounterMessage) -> (effect: Effect<CounterMessage>)
        ensures
            final(self).model() == old(self).model().step(message),
            effect@ == old(self).model().effect(message),
            !old(self).model().accepts(message) ==> *final(self) == *old(self),
            !old(self).allow_negative && old(self).value >= 0 && (message is Increment || message
                is Decrement) ==> final(self).value >= 0 && !final(self).allow_negative,
            message is AutoIncrement && !old(self).auto_increment_enabled ==> *final(self) == *old(
                self,
            ),
            message matches CounterMessage::SwitchTheme(theme_name) && !is_known_theme(
                theme_name@,
            ) ==> *final(self) == *old(self),
            final(self).system_theme_mode == old(self).system_theme_mode,
    {
        match message {
            CounterMessage::ToggleAutoIncrement(enabled) => {
                self.auto_increment_enabled = enabled;
            },
            CounterMessage::AutoIncrement => {
                if self.auto_increment_enabled && self.value < isize::MAX {
                    self.value = self.value + 1;
                }
            },
            CounterMessage::Increment => {
                if self.value < isize::MAX {
                    self.value = self.value + 1;
                }
            },
            CounterMessage::Decrement => {
                if (self.value > 0 || self.allow_negative) && self.value > isize::MIN {
                    self.value = self.value - 1;
                }
            },
            CounterMessage::Reset => {
                self.value = 0;
            },
            CounterMessage::ToggleAllowNegative(allow_negative) => {
                self.allow_negative = allow_negative;
            },
            CounterMessage::ChangeThemeMode(theme_mode) => {
                self.application_theme_mode = theme_mode;
            },
            CounterMessage::SwitchTheme(theme_name) => {
                if is_theme_name(theme_name.as_str()) {
                    self.theme_name = theme_name;
                }
            },
            CounterMessage::SystemInfoLoaded(system_info) => {
                self.system_info = Some(system_info);
            },
            CounterMessage::NoOp => {},
            CounterMessage::RustFs(rust_fs_event) => {
                return self.rust_fs.update(rust_fs_event).retag::<CounterMessage>();
            },
        }
        Effect::Nothing
    }

    /// The message of a choice in the list of palettes: a switch to a known
    /// palette, and nothing for any other name.
    pub fn theme_picked(theme_name: &str) -> (message: CounterMessage)
        ensures
            match message {
                CounterMessage::SwitchTheme(name) => is_known_theme(theme_name@) && name@
                    == theme_name@,
                CounterMessage::NoOp => !is_known_theme(theme_name@),
                _ => false,
            },
    {
        if is_theme_name(theme_name) {
            CounterMessage::SwitchTheme(theme_name.to_owned())
        } else {
            CounterMessage::NoOp
        }
    }

    /// What the application shows: the theme choices, the counter with the
    /// controls that are live, and the folder picker.
    pub fn view(&self) -> (shown: CounterAppView)
        ensures
            shown.themes.theme_modes@ == theme_modes(),
            shown.themes.selected_mode == self.application_theme_mode,
            texts(shown.themes.theme_names@) == theme_names(),
            shown.themes.selected_theme == self.theme_name,
            self.model().counter.shown_as(shown.counter),
            self.rust_fs.shown_as(shown.rust_fs),
    {
        CounterAppView {
            themes: OmniThemesView {
                theme_modes: all_theme_modes(),
                selected_mode: self.application_theme_mode,
                theme_names: all_themes(),
                selected_theme: self.theme_name.clone(),
            },
            counter: CounterView {
                value: self.value,
                decrement: if !self.allow_negative && self.value <= 0 {
                    None
                } else {
                    Some(counter::CounterMessage::Decrement)
                },
                increment: counter::CounterMessage::Increment,
                reset: if self.value != 0 {
                    Some(counter::CounterMessage::Reset)
                } else {
                    None
                },
                allow_negative: self.allow_negative,
                auto_increment_enabled: self.auto_increment_enabled,
            },
            rust_fs: self.rust_fs.view(),
        }
    }

    /// The long-lived sources that the application listens to. They are the
    /// same in every state.
    pub fn subscription(&self) -> (handles: Vec<SubscriptionHandle<CounterMessage>>)
        ensures
            source_views(handles@) == CounterAppModel::subscriptions(),
            handles@.len() == 1,
    {
        let mut handles: Vec<SubscriptionHandle<CounterMessage>> = Vec::new();
        handles.push(create_time_subscription());
        assert(source_views(handles@) =~= CounterAppModel::subscriptions());
        handles
    }

    /// The one message that a job ends in whose worker was lost before it
    /// could answer: a lost folder dialog counts as cancelled, so that the
    /// picker does not wait for ever, and nothing waits for the others.
    pub fn abandoned(job: &Job) -> (message: CounterMessage)
        ensures
            message == match job@ {
                JobView::PickFolder => CounterMessage::RustFs(
                    RustFsEvent::PickFolderConfirmed(None),
                ),
                _ => CounterMessage::NoOp,
            },
    {
        match job {
            Job::PickFolder => CounterMessage::RustFs(RustFsEvent::PickFolderConfirmed(None)),
            _ => CounterMessage::NoOp,
        }
    }

    /// The one message that a finished job ends in. A job that this
    /// application never asks for ends in a message that changes nothing.
    pub fn completed(outcome: Outcome) -> (message: CounterMessage)
        ensures
            message == match outcome {
                Outcome::Folder(choice) => CounterMessage::RustFs(
                    RustFsEvent::PickFolderConfirmed(choice),
                ),
                Outcome::SystemInformation(info) => CounterMessage::SystemInfoLoaded(info),
                _ => CounterMessage::NoOp,
            },
    {
        match outcome {
            Outcome::Folder(choice) => CounterMessage::RustFs(RustFs::folder_picked(choice)),
            Outcome::SystemInformation(info) => CounterMessage::SystemInfoLoaded(info),
            _ => CounterMessage::NoOp,
        }
    }
}

/// The timer that drives automatic increments: one tick per second.
pub fn create_time_subscription() -> (handle: SubscriptionHandle<CounterMessage>)
    ensures
        handle@ == (SubscriptionView::Every { seconds: 1, message: CounterMessage::AutoIncrement }),
{
    SubscriptionHandle::Every { seconds: 1, message: CounterMessage::AutoIncrement }
}

} // verus!
