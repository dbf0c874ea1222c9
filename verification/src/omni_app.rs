//! The composed application: the dispatcher that owns the state of every
//! enabled slice, routes each message to the slice it is tagged for, and
//! re-tags what the slice asks for so that the answer finds its way back.

use crate::counter_themes::{
    all_theme_modes, all_themes, get_system_theme_mode, is_known_theme, is_theme_name, texts,
    theme_modes, theme_names, ThemeMode, GRUVBOX,
};
use crate::effect::{
    retagged, source_views, Effect, EffectView, Envelope, Job, JobView, Outcome,
    SubscriptionHandle, SubscriptionView,
};
use crate::features::counter::{Counter, CounterMessage, CounterModel, CounterView};
use crate::features::omni_themes::OmniThemesView;
use crate::scheduler::{actions, batch_actions, ActionView};
use crate::widgets::instax_framer::{
    InstaxFramer, InstaxFramerMessage, InstaxFramerModel, InstaxFramerView,
};
use crate::widgets::system_info::{SystemInfo, SystemInfoMessage, SystemInfoView};
use vstd::prelude::*;

verus! {

/// The slices that the application can be composed of, in the order in which
/// they are registered and shown.
#[derive(Clone, Copy, Debug, PartialEq, Eq, Structural)]
pub enum SliceKind {
    Counter,
    SystemInfo,
    InstaxFramer,
}

/// Which slices an application is started with.
#[derive(Clone, Copy, Debug, PartialEq, Eq, Structural)]
pub struct Features {
    pub counter: bool,
    pub system_info: bool,
    pub instax_framer: bool,
}

/// The state of the application: the theme preferences, shared by all, and
/// the state of each enabled slice.
#[derive(Debug, PartialEq)]
pub struct OmniApp {
    pub counter: Option<Counter>,
    pub application_theme_mode: ThemeMode,
    pub system_theme_mode: ThemeMode,
    pub theme_name: String,
    pub system_info: Option<SystemInfo>,
    pub instax_framer: Option<InstaxFramer>,
}

/// A message to the application: one of the theme messages, which concern
/// the application as a whole, or the message of one slice, tagged with it.
#[derive(Clone, Debug, PartialEq)]
pub enum OmniAppMessage {
    ChangeThemeMode(ThemeMode),
    SwitchTheme(String),
    NoOp,
    CounterEvent(CounterMessage),
    SystemInfo(SystemInfoMessage),
    InstaxFramer(InstaxFramerMessage),
}

impl View for OmniAppMessage {
    type V = OmniAppMessage;

    open spec fn view(&self) -> OmniAppMessage {
        *self
    }
}

impl OmniAppMessage {
    /// The slice that the message is tagged for, if it is tagged for one.
    pub open spec fn slice(self) -> Option<SliceKind> {
        match self {
            OmniAppMessage::CounterEvent(_) => Some(SliceKind::Counter),
            OmniAppMessage::SystemInfo(_) => Some(SliceKind::SystemInfo),
            OmniAppMessage::InstaxFramer(_) => Some(SliceKind::InstaxFramer),
            _ => None,
        }
    }
}

impl Envelope<CounterMessage> for OmniAppMessage {
    open spec fn enclosing(message: CounterMessage) -> OmniAppMessage {
        OmniAppMessage::CounterEvent(message)
    }

    fn enclose(message: CounterMessage) -> (envelope: OmniAppMessage) {
        OmniAppMessage::CounterEvent(message)
    }
}

impl Envelope<SystemInfoMessage> for OmniAppMessage {
    open spec fn enclosing(message: SystemInfoMessage) -> OmniAppMessage {
        OmniAppMessage::SystemInfo(message)
    }

    fn enclose(message: SystemInfoMessage) -> (envelope: OmniAppMessage) {
        OmniAppMessage::SystemInfo(message)
    }
}

impl Envelope<InstaxFramerMessage> for OmniAppMessage {
    open spec fn enclosing(message: InstaxFramerMessage) -> OmniAppMessage {
        OmniAppMessage::InstaxFramer(message)
    }

    fn enclose(message: InstaxFramerMessage) -> (envelope: OmniAppMessage) {
        OmniAppMessage::InstaxFramer(message)
    }
}

/// What one slice shows, tagged with the slice.
#[derive(Debug, PartialEq)]
pub enum SliceView {
    Counter(CounterView),
    SystemInfo(SystemInfoView),
    InstaxFramer(InstaxFramerView),
}

/// What the application shows: the theme choices, then every enabled slice
/// in the order of registration.
#[derive(Debug, PartialEq)]
pub struct OmniAppView {
    pub themes: OmniThemesView,
    pub slices: Vec<SliceView>,
}

/// The mathematical value of an [`OmniApp`].
pub struct OmniAppModel {
    pub counter: Option<CounterModel>,
    pub application_theme_mode: ThemeMode,
    pub system_theme_mode: ThemeMode,
    pub theme_name: String,
    pub system_info: Option<SystemInfo>,
    pub instax_framer: Option<InstaxFramerModel>,
}

impl OmniAppModel {
    /// Whether the slice `kind` is part of the application.
    pub open spec fn enabled(self, kind: SliceKind) -> bool {
        match kind {
            SliceKind::Counter => self.counter is Some,
            SliceKind::SystemInfo => self.system_info is Some,
            SliceKind::InstaxFramer => self.instax_framer is Some,
        }
    }

    /// The enabled slices in the order of registration.
    pub open spec fn registry(self) -> Seq<SliceKind> {
        (if self.counter is Some {
            seq![SliceKind::Counter]
        } else {
            seq![]
        }) + (if self.system_info is Some {
            seq![SliceKind::SystemInfo]
        } else {
            seq![]
        }) + (if self.instax_framer is Some {
            seq![SliceKind::InstaxFramer]
        } else {
            seq![]
        })
    }

    /// Whether the message reaches anything: a theme message always does, a
    /// slice message only if its slice is enabled.
    pub open spec fn routes(self, message: OmniAppMessage) -> bool {
        match message.slice() {
            Some(kind) => self.enabled(kind),
            None => true,
        }
    }

    /// Whether the message is applied as it stands. The one message that is
    /// not is a counter message that would take the counter out of the range
    /// of its machine integer: the counter ignores it.
    pub open spec fn accepts(self, message: OmniAppMessage) -> bool {
        match (message, self.counter) {
            (
                OmniAppMessage::CounterEvent(counter_event),
                Some(counter),
            ) => counter.unbounded_step(counter_event).representable(),
            _ => true,
        }
    }

    /// Every enabled slice is in a state that its own transitions lead to.
    pub open spec fn wf(self) -> bool {
        self.instax_framer matches Some(framer) ==> framer.wf()
    }

    /// The application after one message.
    ///
    /// A theme message changes the theme preferences, and never the detected
    /// mode of the system; a palette name outside the known set is not
    /// stored. A slice message is handed to its slice unchanged; where that
    /// slice is not enabled, the message is dropped.
    pub open spec fn step(self, message: OmniAppMessage) -> OmniAppModel {
        match message {
            OmniAppMessage::ChangeThemeMode(theme_mode) => OmniAppModel {
                application_theme_mode: theme_mode,
                ..self
            },
            OmniAppMessage::SwitchTheme(theme_name) => if is_known_theme(theme_name@) {
                OmniAppModel { theme_name, ..self }
            } else {
                self
            },
            OmniAppMessage::NoOp => self,
            OmniAppMessage::CounterEvent(counter_event) => match self.counter {
                Some(counter) => OmniAppModel {
                    counter: Some(counter.step(counter_event)),
                    ..self
                },
                None => self,
            },
            OmniAppMessage::SystemInfo(info_message) => match self.system_info {
                Some(system_info) => OmniAppModel {
                    system_info: Some(system_info.step(info_message)),
                    ..self
                },
                None => self,
            },
            OmniAppMessage::InstaxFramer(framer_message) => match self.instax_framer {
                Some(framer) => OmniAppModel {
                    instax_framer: Some(framer.step(framer_message)),
                    ..self
                },
                None => self,
            },
        }
    }

    /// The deferred work that one message asks for: what the addressed slice
    /// asks for, re-tagged with that slice.
    pub open spec fn effect(self, message: OmniAppMessage) -> EffectView<OmniAppMessage> {
        match (message, self.instax_framer) {
            (OmniAppMessage::InstaxFramer(framer_message), Some(framer)) => retagged::<
                InstaxFramerMessage,
                OmniAppMessage,
            >(framer.effect(framer_message)),
            _ => EffectView::Nothing,
        }
    }

    /// What the slice `kind` of an application in this state must show.
    pub open spec fn slice_shown_as(self, kind: SliceKind, shown: SliceView) -> bool {
        match kind {
            SliceKind::Counter => shown matches SliceView::Counter(view) && self.counter matches Some(
                counter,
            ) && counter.shown_as(view),
            SliceKind::SystemInfo => shown matches SliceView::SystemInfo(view)
                && self.system_info matches Some(system_info) && system_info.shown_as(view),
            SliceKind::InstaxFramer => shown matches SliceView::InstaxFramer(view)
                && self.instax_framer matches Some(framer) && framer.shown_as(view),
        }
    }

    /// The long-lived sources that an application in this state listens to:
    /// the one-second timer of the counter, where the counter is enabled.
    pub open spec fn subscriptions(self) -> Seq<SubscriptionView<OmniAppMessage>> {
        if self.counter is Some {
            seq![
                SubscriptionView::Every {
                    seconds: 1,
                    message: OmniAppMessage::CounterEvent(CounterMessage::AutoIncrement),
                },
            ]
        } else {
            seq![]
        }
    }

    /// The work that an application in this state begins with, one member
    /// for each enabled slice that has something to begin with.
    pub open spec fn start_up(self) -> EffectView<OmniAppMessage> {
        EffectView::Batch(
            (if self.system_info is Some {
                seq![EffectView::Async(JobView::FetchSystemInformation)]
            } else {
                seq![]
            }) + (match self.instax_framer {
                Some(framer) => seq![
                    retagged::<InstaxFramerMessage, OmniAppMessage>(framer.start_up()),
                ],
                None => seq![],
            }),
        )
    }
}

/// The message that a job ends in whose worker was lost before it could
/// answer: what frees the slice that waits for it. A lost load has failed, a
/// lost file dialog counts as cancelled, and nothing waits for the others.
pub open spec fn abandoned_message(job: JobView) -> OmniAppMessage {
    match job {
        JobView::LoadImage(_) => OmniAppMessage::InstaxFramer(
            InstaxFramerMessage::ImageLoadingFailed,
        ),
        JobView::PickImageFile => OmniAppMessage::InstaxFramer(InstaxFramerMessage::PickCancelled),
        _ => OmniAppMessage::NoOp,
    }
}

/// The slice that the answer to a finished job is meant for, if any.
pub open spec fn outcome_slice(outcome: Outcome) -> Option<SliceKind> {
    match outcome {
        Outcome::ImageFile(_) => Some(SliceKind::InstaxFramer),
        Outcome::ImageContents(_) => Some(SliceKind::InstaxFramer),
        Outcome::SystemInformation(_) => Some(SliceKind::SystemInfo),
        Outcome::AlertClosed => None,
        Outcome::Folder(_) => None,
    }
}

impl OmniApp {
    /// The mathematical value of this application.
    pub open spec fn model(&self) -> OmniAppModel {
        OmniAppModel {
            counter: match self.counter {
                Some(counter) => Some(counter.model()),
                None => None,
            },
            application_theme_mode: self.application_theme_mode,
            system_theme_mode: self.system_theme_mode,
            theme_name: self.theme_name,
            system_info: self.system_info,
            instax_framer: match self.instax_framer {
                Some(framer) => Some(framer.model()),
                None => None,
            },
        }
    }

    /// The application at start, with the slices of `features` and over a
    /// given mode of the system. Every slice starts from its fixed default;
    /// the application defers to the system's mode and shows the Gruvbox
    /// palette.
    pub fn with_features(features: Features, system_theme_mode: ThemeMode) -> (app: OmniApp)
        ensures
            app.model().counter == if features.counter {
                Some(CounterModel::initial())
            } else {
                None
            },
            app.application_theme_mode == ThemeMode::SystemDefault,
            app.system_theme_mode == system_theme_mode,
            app.theme_name@ == GRUVBOX@,
            app.system_info == if features.system_info {
                Some(SystemInfo { system_info: None })
            } else {
                None
            },
            app.model().instax_framer == if features.instax_framer {
                Some(InstaxFramerModel::initial())
            } else {
                None
            },
            app.model().wf(),
    {
        OmniApp {
            counter: if features.counter {
                Some(Counter::init())
            } else {
                None
            },
            application_theme_mode: ThemeMode::SystemDefault,
            system_theme_mode,
            theme_name: GRUVBOX.to_owned(),
            system_info: if features.system_info {
                Some(SystemInfo::init())
            } else {
                None
            },
            instax_framer: if features.instax_framer {
                Some(InstaxFramer::init())
            } else {
                None
            },
        }
    }

    /// The application at start with every slice enabled, over the mode that
    /// the operating system reports at this moment.
    pub fn init() -> (app: OmniApp)
        ensures
            app.model().counter == Some(CounterModel::initial()),
            app.application_theme_mode == ThemeMode::SystemDefault,
            app.theme_name@ == GRUVBOX@,
            app.system_info == Some(SystemInfo { system_info: None }),
            app.model().instax_framer == Some(InstaxFramerModel::initial()),
            app.model().wf(),
    {
        OmniApp::with_features(
            Features { counter: true, system_info: true, instax_framer: true },
            get_system_theme_mode(),
        )
    }

    /// Whether `message` is applied as it stands, rather than ignored by a
    /// counter at the end of its range.
    pub fn accepts(&self, message: &OmniAppMessage) -> (fits: bool)
        ensures
            fits == self.model().accepts(*message),
    {
        match (message, &self.counter) {
            (OmniAppMessage::CounterEvent(counter_event), Some(counter)) => counter.accepts(
                *counter_event,
            ),
            _ => true,
        }
    }

    /// Applies one message and says what work is to follow. Every message is
    /// taken in every state, and ends in a state and an effect.
    ///
    /// The message is routed to the slice it is tagged for, and the effect
    /// of that slice comes back re-tagged with it. A message for a slice
    /// that is not enabled is dropped: nothing changes and nothing follows.
    /// So is a message that its slice cannot take: an answer that arrives
    /// out of turn, or a count beyond the range of the counter.
    pub fn update(&mut self, message: OmniAppMessage) -> (effect: Effect<OmniAppMessage>)
        ensures
            final(self).model() == old(self).model().step(message),
            effect@ == old(self).model().effect(message),
            !old(self).model().routes(message) ==> *final(self) == *old(self) && effect@
                == EffectView::<OmniAppMessage>::Nothing,
            message matches OmniAppMessage::SwitchTheme(theme_name) && !is_known_theme(
                theme_name@,
            ) ==> *final(self) == *old(self) && effect@ == EffectView::<OmniAppMessage>::Nothing,
            !old(self).model().accepts(message) ==> final(self).model() == old(self).model()
                && effect@ == EffectView::<OmniAppMessage>::Nothing,
            final(self).system_theme_mode == old(self).system_theme_mode,
            old(self).model().wf() ==> final(self).model().wf(),
    {
        match message {
            OmniAppMessage::CounterEvent(counter_event) => match &mut self.counter {
                Some(counter) => counter.update(counter_event).retag::<OmniAppMessage>(),
                None => Effect::Nothing,
            },
            OmniAppMessage::ChangeThemeMode(theme_mode) => {
                self.application_theme_mode = theme_mode;
                Effect::Nothing
            },
            OmniAppMessage::SwitchTheme(theme_name) => {
                if is_theme_name(theme_name.as_str()) {
                    self.theme_name = theme_name;
                }
                Effect::Nothing
            },
            OmniAppMessage::SystemInfo(info_message) => match &mut self.system_info {
                Some(system_info) => system_info.update(info_message).retag::<OmniAppMessage>(),
                None => Effect::Nothing,
            },
            OmniAppMessage::InstaxFramer(framer_message) => match &mut self.instax_framer {
                Some(framer) => framer.update(framer_message).retag::<OmniAppMessage>(),
                None => Effect::Nothing,
            },
            OmniAppMessage::NoOp => Effect::Nothing,
        }
    }

    /// The message of a choice in the list of palettes: a switch to a known
    /// palette, and nothing for any other name.
    pub fn theme_picked(theme_name: &str) -> (message: OmniAppMessage)
        ensures
            match message {
                OmniAppMessage::SwitchTheme(name) => is_known_theme(theme_name@) && name@
                    == theme_name@,
                OmniAppMessage::NoOp => !is_known_theme(theme_name@),
                _ => false,
            },
    {
        if is_theme_name(theme_name) {
            OmniAppMessage::SwitchTheme(theme_name.to_owned())
        } else {
            OmniAppMessage::NoOp
        }
    }

    /// What the application shows: the theme choices, and the view of every
    /// enabled slice in the order of registration. A slice that still waits
    /// for its data shows its placeholder.
    pub fn view(&self) -> (shown: OmniAppView)
        ensures
            shown.themes.theme_modes@ == theme_modes(),
            shown.themes.selected_mode == self.application_theme_mode,
            texts(shown.themes.theme_names@) == theme_names(),
            shown.themes.selected_theme == self.theme_name,
            shown.slices@.len() == self.model().registry().len(),
            forall|i: int|
                0 <= i < shown.slices@.len() ==> self.model().slice_shown_as(
                    #[trigger] self.model().registry()[i],
                    shown.slices@[i],
                ),
    {
        let mut slices: Vec<SliceView> = Vec::new();
        match &self.counter {
            Some(counter) => slices.push(SliceView::Counter(counter.view())),
            None => {},
        }
        match &self.system_info {
            Some(system_info) => slices.push(SliceView::SystemInfo(system_info.view())),
            None => {},
        }
        match &self.instax_framer {
            Some(framer) => slices.push(SliceView::InstaxFramer(framer.view())),
            None => {},
        }
        OmniAppView {
            themes: OmniThemesView {
                theme_modes: all_theme_modes(),
                selected_mode: self.application_theme_mode,
                theme_names: all_themes(),
                selected_theme: self.theme_name.clone(),
            },
            slices,
        }
    }

    /// The long-lived sources that the application listens to in this
    /// state. They depend on nothing but the set of enabled slices, so that
    /// asking again in an unchanged state names the same sources.
    pub fn subscription(&self) -> (handles: Vec<SubscriptionHandle<OmniAppMessage>>)
        ensures
            source_views(handles@) == self.model().subscriptions(),
            handles@.len() == self.model().subscriptions().len(),
    {
        let mut handles: Vec<SubscriptionHandle<OmniAppMessage>> = Vec::new();
        if self.counter.is_some() {
            handles.push(Counter::create_auto_increment_subscription().retag::<OmniAppMessage>());
        }
        assert(source_views(handles@) =~= self.model().subscriptions());
        handles
    }

    /// The work that the application begins with: a batch with one member
    /// for each enabled slice that has something to begin with.
    pub fn start_up_tasks(&self) -> (effect: Effect<OmniAppMessage>)
        ensures
            effect@ == self.model().start_up(),
    {
        let mut members: Vec<Effect<OmniAppMessage>> = Vec::new();
        if self.system_info.is_some() {
            members.push(SystemInfo::fetch_information().retag::<OmniAppMessage>());
        }
        match &self.instax_framer {
            Some(framer) => members.push(framer.start_up_tasks().retag::<OmniAppMessage>()),
            None => {},
        }
        let effect = Effect::Batch(members);
        assert(effect@->Batch_0 =~= self.model().start_up()->Batch_0);
        effect
    }

    /// The one message that a job ends in whose worker was lost before it
    /// could answer, so that no slice waits for ever: a lost load has
    /// failed, and a lost file dialog counts as cancelled.
    pub fn abandoned(job: &Job) -> (message: OmniAppMessage)
        ensures
            message == abandoned_message(job@),
            message == match job@ {
                JobView::LoadImage(_) => OmniAppMessage::InstaxFramer(
                    InstaxFramerMessage::ImageLoadingFailed,
                ),
                JobView::PickImageFile => OmniAppMessage::InstaxFramer(
                    InstaxFramerMessage::PickCancelled,
                ),
                _ => OmniAppMessage::NoOp,
            },
    {
        match job {
            Job::LoadImage(_) => OmniAppMessage::InstaxFramer(
                InstaxFramerMessage::ImageLoadingFailed,
            ),
            Job::PickImageFile => OmniAppMessage::InstaxFramer(InstaxFramerMessage::PickCancelled),
            _ => OmniAppMessage::NoOp,
        }
    }

    /// The one message that a finished job ends in, tagged for the slice
    /// that asked for the job. The contents of an image file are decoded
    /// here. An alert ends in a message that changes nothing, and so does a
    /// job that no slice of this application asks for.
    pub fn completed(outcome: Outcome) -> (message: OmniAppMessage)
        ensures
            message.slice() == outcome_slice(outcome),
            match outcome {
                Outcome::ImageFile(Some(path)) => message == OmniAppMessage::InstaxFramer(
                    InstaxFramerMessage::ImagePicked(path),
                ),
                Outcome::ImageFile(None) => message == OmniAppMessage::InstaxFramer(
                    InstaxFramerMessage::PickCancelled,
                ),
                Outcome::ImageContents(contents) => message matches OmniAppMessage::InstaxFramer(
                    framer_message,
                ) && (framer_message is ImageLoadingFinished || framer_message
                    is ImageLoadingFailed) && (contents is None ==> framer_message
                    is ImageLoadingFailed),
                Outcome::SystemInformation(info) => message == OmniAppMessage::SystemInfo(
                    SystemInfoMessage::SystemInformationLoaded(info),
                ),
                Outcome::AlertClosed => message == OmniAppMessage::NoOp,
                Outcome::Folder(_) => message == OmniAppMessage::NoOp,
            },
    {
        match outcome {
            Outcome::ImageFile(choice) => OmniAppMessage::InstaxFramer(
                InstaxFramer::image_picked(choice),
            ),
            Outcome::ImageContents(contents) => OmniAppMessage::InstaxFramer(
                InstaxFramer::image_loaded(contents),
            ),
            Outcome::SystemInformation(info) => OmniAppMessage::SystemInfo(
                SystemInfo::information_fetched(info),
            ),
            Outcome::AlertClosed => OmniAppMessage::NoOp,
            Outcome::Folder(_) => OmniAppMessage::NoOp,
        }
    }
}

/// A message tagged for a slice that is not enabled is a no-op: the state
/// after it is the state before it, and no work follows.
pub proof fn lemma_unroutable_message_is_dropped(state: OmniAppModel, message: OmniAppMessage)
    requires
        !state.routes(message),
    ensures
        state.step(message) == state,
        state.effect(message) == EffectView::<OmniAppMessage>::Nothing,
{
}

/// A switch to a palette outside the known set leaves the state as it was,
/// the palette name included, and no work follows.
pub proof fn lemma_unknown_theme_is_not_stored(state: OmniAppModel, theme_name: String)
    requires
        !is_known_theme(theme_name@),
    ensures
        state.step(OmniAppMessage::SwitchTheme(theme_name)) == state,
        state.effect(OmniAppMessage::SwitchTheme(theme_name)) == EffectView::<
            OmniAppMessage,
        >::Nothing,
{
}

/// A tick of the timer changes nothing while automatic increments are off,
/// and no work follows.
pub proof fn lemma_tick_is_ignored_while_disabled(state: OmniAppModel)
    requires
        state.counter matches Some(counter) ==> !counter.auto_increment_enabled,
    ensures
        state.step(OmniAppMessage::CounterEvent(CounterMessage::AutoIncrement)) == state,
        state.effect(OmniAppMessage::CounterEvent(CounterMessage::AutoIncrement))
            == EffectView::<OmniAppMessage>::Nothing,
{
}

/// Asking twice for the sources of one unchanged state names the same
/// sources both times, so that registering them again starts no second timer.
pub proof fn lemma_subscriptions_are_idempotent(
    state: OmniApp,
    first: Vec<SubscriptionHandle<OmniAppMessage>>,
    second: Vec<SubscriptionHandle<OmniAppMessage>>,
)
    requires
        source_views(first@) == state.model().subscriptions(),
        source_views(second@) == state.model().subscriptions(),
    ensures
        source_views(first@) == source_views(second@),
        source_views(first@).to_set() == source_views(second@).to_set(),
{
}

/// No message changes which sources the application listens to: they depend
/// on the set of enabled slices alone, and no message changes that set.
pub proof fn lemma_subscriptions_survive_every_message(state: OmniAppModel, message: OmniAppMessage)
    ensures
        state.step(message).subscriptions() == state.subscriptions(),
        state.step(message).registry() == state.registry(),
{
}

/// No message changes the detected mode of the system, and the theme
/// messages are the only ones that change a theme preference.
pub proof fn lemma_theme_preferences_are_changed_by_theme_messages_alone(
    state: OmniAppModel,
    message: OmniAppMessage,
)
    ensures
        state.step(message).system_theme_mode == state.system_theme_mode,
        !(message is ChangeThemeMode) ==> state.step(message).application_theme_mode
            == state.application_theme_mode,
        !(message is SwitchTheme) ==> state.step(message).theme_name == state.theme_name,
{
}

/// A slice message changes the state of its own slice at most: every other
/// slice is after the message what it was before.
pub proof fn lemma_slices_do_not_touch_each_other(state: OmniAppModel, message: OmniAppMessage)
    ensures
        message.slice() != Some(SliceKind::Counter) ==> state.step(message).counter
            == state.counter,
        message.slice() != Some(SliceKind::SystemInfo) ==> state.step(message).system_info
            == state.system_info,
        message.slice() != Some(SliceKind::InstaxFramer) ==> state.step(message).instax_framer
            == state.instax_framer,
{
}

/// The answer to a job goes back to the slice that asked for it: whatever
/// outcome answers a job that a message made a slice ask for, the message
/// that it ends in is tagged for the slice of that first message, or for
/// none.
pub proof fn lemma_answers_route_back(
    state: OmniAppModel,
    message: OmniAppMessage,
    job: JobView,
    outcome: Outcome,
)
    requires
        actions(state.effect(message)).contains(ActionView::Run(job)),
        outcome.answers(job),
    ensures
        outcome_slice(outcome) is None || outcome_slice(outcome) == message.slice(),
{
    let planned = actions(state.effect(message));
    let at = choose|i: int| 0 <= i < planned.len() && planned[i] == ActionView::<
        OmniAppMessage,
    >::Run(job);
    assert(planned[at] == ActionView::<OmniAppMessage>::Run(job));
}

/// The message of an abandoned job goes back to the slice that asked for the
/// job, or to none.
pub proof fn lemma_abandoned_jobs_route_back(
    state: OmniAppModel,
    message: OmniAppMessage,
    job: JobView,
)
    requires
        actions(state.effect(message)).contains(ActionView::Run(job)),
    ensures
        abandoned_message(job).slice() is None || abandoned_message(job).slice()
            == message.slice(),
{
    let planned = actions(state.effect(message));
    let at = choose|i: int| 0 <= i < planned.len() && planned[i] == ActionView::<
        OmniAppMessage,
    >::Run(job);
    assert(planned[at] == ActionView::<OmniAppMessage>::Run(job));
}

/// An abandoned job leaves nothing outstanding: after its message the
/// framer neither waits for a dialog that was lost nor for a load that was
/// lost.
pub proof fn lemma_abandoned_job_frees_the_framer(state: OmniAppModel, job: JobView)
    requires
        state.instax_framer is Some,
        job is PickImageFile || job is LoadImage,
    ensures
        ({
            let after = state.step(abandoned_message(job)).instax_framer->Some_0;
            &&& job is PickImageFile ==> !after.dialog_open
            &&& job is LoadImage ==> !(after.load_status is Loading)
        }),
{
}

/// The work that the application begins with holds only jobs whose answers
/// go to an enabled slice.
pub proof fn lemma_start_up_jobs_route_to_enabled_slices(
    state: OmniAppModel,
    job: JobView,
    outcome: Outcome,
)
    requires
        actions(state.start_up()).contains(ActionView::Run(job)),
        outcome.answers(job),
    ensures
        outcome_slice(outcome) matches Some(kind) && state.enabled(kind),
{
    let members = state.start_up()->Batch_0;
    let planned = actions(state.start_up());
    let at = choose|i: int| 0 <= i < planned.len() && planned[i] == ActionView::<
        OmniAppMessage,
    >::Run(job);
    assert(planned[at] == ActionView::<OmniAppMessage>::Run(job));
    assert(planned == batch_actions(members, members.len()));
    if members.len() == 2 {
        assert(batch_actions(members, 2) == batch_actions(members, 1) + actions(members[1]));
    }
    if members.len() >= 1 {
        assert(batch_actions(members, 1) == batch_actions(members, 0) + actions(members[0]));
    }
}

} // verus!
