//! The counter slice: a signed value with manual and timed increments.

use crate::effect::{Effect, SubscriptionHandle};
use vstd::prelude::*;

verus! {

/// What can happen to a counter.
#[derive(Clone, Copy, Debug, PartialEq, Eq, Structural)]
pub enum CounterMessage {
    /// A tick of the one-second timer.
    AutoIncrement,
    ToggleAutoIncrement(bool),
    Increment,
    Decrement,
    Reset,
    ToggleAllowNegative(bool),
}

impl View for CounterMessage {
    type V = CounterMessage;

    open spec fn view(&self) -> CounterMessage {
        *self
    }
}

/// The mathematical value of a [`Counter`], over unbounded integers.
pub struct CounterModel {
    pub value: int,
    pub allow_negative: bool,
    pub auto_increment_enabled: bool,
}

impl CounterModel {
    /// The counter a fresh application starts with.
    pub open spec fn initial() -> CounterModel {
        CounterModel { value: 0, allow_negative: true, auto_increment_enabled: false }
    }

    /// The counter after one message, were its value not bound to a machine
    /// integer.
    ///
    /// A decrement is refused at zero and below unless negative values are
    /// allowed. Switching that permission off never touches the value.
    pub open spec fn unbounded_step(self, message: CounterMessage) -> CounterModel {
        match message {
            CounterMessage::AutoIncrement => if self.auto_increment_enabled {
                CounterModel { value: self.value + 1, ..self }
            } else {
                self
            },
            CounterMessage::ToggleAutoIncrement(enabled) => CounterModel {
                auto_increment_enabled: enabled,
                ..self
            },
            CounterMessage::Increment => CounterModel { value: self.value + 1, ..self },
            CounterMessage::Decrement => if self.value > 0 || self.allow_negative {
                CounterModel { value: self.value - 1, ..self }
            } else {
                self
            },
            CounterMessage::Reset => CounterModel { value: 0, ..self },
            CounterMessage::ToggleAllowNegative(allowed) => CounterModel {
                allow_negative: allowed,
                ..self
            },
        }
    }

    /// Whether the value fits the machine integer that holds it.
    pub open spec fn representable(self) -> bool {
        isize::MIN <= self.value <= isize::MAX
    }

    /// The counter after one message.
    ///
    /// Within the range of the machine integer this is the step above. A
    /// message that would take the value out of that range is ignored: the
    /// counter stays as it is, and nothing fails.
    pub open spec fn step(self, message: CounterMessage) -> CounterModel {
        if self.unbounded_step(message).representable() {
            self.unbounded_step(message)
        } else {
            self
        }
    }

    /// The counter after a sequence of messages, applied first to last.
    pub open spec fn run(self, messages: Seq<CounterMessage>) -> CounterModel
        decreases messages.len(),
    {
        if messages.len() == 0 {
            self
        } else {
            self.run(messages.drop_last()).step(messages.last())
        }
    }

    /// What a counter in this state must show. The minus button is live
    /// unless a decrement is refused at zero and below, the reset button
    /// exactly when the value is not zero.
    pub open spec fn shown_as(self, shown: CounterView) -> bool {
        &&& shown.value == self.value
        &&& shown.increment == CounterMessage::Increment
        &&& shown.decrement == if self.unbounded_step(CounterMessage::Decrement) == self {
            None::<CounterMessage>
        } else {
            Some(CounterMessage::Decrement)
        }
        &&& shown.reset == if self.value == 0 {
            None::<CounterMessage>
        } else {
            Some(CounterMessage::Reset)
        }
        &&& shown.allow_negative == self.allow_negative
        &&& shown.auto_increment_enabled == self.auto_increment_enabled
    }
}

/// The state of the counter slice.
#[derive(Clone, Copy, Debug, PartialEq, Eq)]
pub struct Counter {
    value: isize,
    allow_negative: bool,
    auto_increment_enabled: bool,
}

impl Counter {
    /// The mathematical value of this counter.
    pub closed spec fn model(&self) -> CounterModel {
        CounterModel {
            value: self.value as int,
            allow_negative: self.allow_negative,
            auto_increment_enabled: self.auto_increment_enabled,
        }
    }
}

/// What the counter shows, and which of its controls are live.
#[derive(Clone, Copy, Debug, PartialEq, Eq)]
pub struct CounterView {
    pub value: isize,
    /// The message of the minus button, absent while the button is disabled.
    pub decrement: Option<CounterMessage>,
    /// The message of the plus button.
    pub increment: CounterMessage,
    /// The message of the reset button, absent while the button is disabled.
    pub reset: Option<CounterMessage>,
    pub allow_negative: bool,
    pub auto_increment_enabled: bool,
}

impl Counter {
    /// A counter at zero that may go negative and does not tick.
    pub fn init() -> (counter: Counter)
        ensures
            counter.model() == CounterModel::initial(),
    {
        Counter { value: 0, allow_negative: true, auto_increment_enabled: false }
    }

    /// A counter in a given state.
    pub fn new(value: isize, allow_negative: bool, auto_increment_enabled: bool) -> (counter:
        Counter)
        ensures
            counter.model() == (CounterModel {
                value: value as int,
                allow_negative,
                auto_increment_enabled,
            }),
    {
        Counter { value, allow_negative, auto_increment_enabled }
    }

    pub fn value(&self) -> (value: isize)
        ensures
            value == self.model().value,
    {
        self.value
    }

    pub fn allow_negative(&self) -> (allowed: bool)
        ensures
            allowed == self.model().allow_negative,
    {
        self.allow_negative
    }

    pub fn auto_increment_enabled(&self) -> (enabled: bool)
        ensures
            enabled == self.model().auto_increment_enabled,
    {
        self.auto_increment_enabled
    }

    /// Every counter holds a value that fits its machine integer.
    pub proof fn lemma_representable(self)
        ensures
            self.model().representable(),
    {
    }

    /// Whether `message` is applied as it stands, rather than ignored
    /// because it would take the value out of the range of the machine
    /// integer.
    pub fn accepts(&self, message: CounterMessage) -> (fits: bool)
        ensures
            fits == self.model().unbounded_step(message).representable(),
    {
        match message {
            CounterMessage::AutoIncrement => !self.auto_increment_enabled || self.value
                < isize::MAX,
            CounterMessage::Increment => self.value < isize::MAX,
            CounterMessage::Decrement => !(self.value > 0 || self.allow_negative) || self.value
                > isize::MIN,
            _ => true,
        }
    }

    /// Applies one message. The counter never asks for deferred work, and
    /// takes every message in every state: at either end of the range of
    /// its machine integer, a message that would leave the range is ignored.
    pub fn update(&mut self, message: CounterMessage) -> (effect: Effect<CounterMessage>)
        ensures
            final(self).model() == old(self).model().step(message),
            effect@ == crate::effect::EffectView::<CounterMessage>::Nothing,
            old(self).model().unbounded_step(message).representable() ==> final(self).model()
                == old(self).model().unbounded_step(message),
            !old(self).model().unbounded_step(message).representable() ==> final(self).model()
                == old(self).model(),
            message is AutoIncrement && !old(self).model().auto_increment_enabled
                ==> final(self).model() == old(self).model(),
            message is Decrement && !old(self).model().allow_negative && old(self).model().value
                <= 0 ==> final(self).model() == old(self).model(),
            !old(self).model().allow_negative && old(self).model().value >= 0 && !(message
                matches CounterMessage::ToggleAllowNegative(true)) ==> final(self).model().value
                >= 0,
            !old(self).model().allow_negative && old(self).model().value >= 0 && (message
                is Increment || message is Decrement) ==> final(self).model().value >= 0
                && !final(self).model().allow_negative,
    {
        match message {
            CounterMessage::ToggleAutoIncrement(enabled) => {
                self.auto_increment_enabled = enabled;
            },
            CounterMessage::AutoIncrement => {
                if self.auto_increment_enabled && self.value < isize::MAX {
                    self.value = self.value + 1;
                }
            },
            CounterMessage::Increment => {
                if self.value < isize::MAX {
                    self.value = self.value + 1;
                }
            },
            CounterMessage::Decrement => {
                if (self.value > 0 || self.allow_negative) && self.value > isize::MIN {
                    self.value = self.value - 1;
                }
            },
            CounterMessage::Reset => {
                self.value = 0;
            },
            CounterMessage::ToggleAllowNegative(allow_negative) => {
                self.allow_negative = allow_negative;
            },
        }
        Effect::Nothing
    }

    /// What the counter shows, with the controls that are live.
    pub fn view(&self) -> (shown: CounterView)
        ensures
            self.model().shown_as(shown),
    {
        CounterView {
            value: self.value,
            decrement: if !self.allow_negative && self.value <= 0 {
                None
            } else {
                Some(CounterMessage::Decrement)
            },
            increment: CounterMessage::Increment,
            reset: if self.value != 0 {
                Some(CounterMessage::Reset)
            } else {
                None
            },
            allow_negative: self.allow_negative,
            auto_increment_enabled: self.auto_increment_enabled,
        }
    }

    /// The timer that drives automatic increments: one tick per second.
    pub fn create_auto_increment_subscription() -> (handle: SubscriptionHandle<CounterMessage>)
        ensures
            handle@ == (crate::effect::SubscriptionView::Every {
                seconds: 1,
                message: CounterMessage::AutoIncrement,
            }),
    {
        SubscriptionHandle::Every { seconds: 1, message: CounterMessage::AutoIncrement }
    }
}

/// No message takes a counter out of the range of its machine integer.
pub proof fn lemma_step_stays_in_range(counter: CounterModel, message: CounterMessage)
    requires
        counter.representable(),
    ensures
        counter.step(message).representable(),
{
}

/// A message is ignored at the end of the range only: wherever the value
/// after it fits the machine integer, the counter moves as it would over
/// unbounded integers.
pub proof fn lemma_step_within_range(counter: CounterModel, message: CounterMessage)
    requires
        isize::MIN < counter.value < isize::MAX,
    ensures
        counter.step(message) == counter.unbounded_step(message),
{
}

/// While negative values are not allowed, no message other than the one that
/// allows them takes a non-negative counter below zero.
pub proof fn lemma_step_keeps_non_negative(counter: CounterModel, message: CounterMessage)
    requires
        !counter.allow_negative,
        counter.value >= 0,
        !(message matches CounterMessage::ToggleAllowNegative(true)),
    ensures
        !counter.step(message).allow_negative,
        counter.step(message).value >= 0,
{
}

/// With negative values not allowed, a counter that starts at zero or above
/// stays there through every sequence of increments and decrements: after
/// each prefix of the sequence the value is at least zero.
pub proof fn lemma_never_below_zero(start: CounterModel, messages: Seq<CounterMessage>, n: int)
    requires
        !start.allow_negative,
        start.value >= 0,
        forall|i: int|
            0 <= i < messages.len() ==> (#[trigger] messages[i]) is Increment || messages[i]
                is Decrement,
        0 <= n <= messages.len(),
    ensures
        start.run(messages.take(n)).value >= 0,
        !start.run(messages.take(n)).allow_negative,
    decreases n,
{
    let prefix = messages.take(n);
    if n > 0 {
        lemma_never_below_zero(start, messages, n - 1);
        assert(prefix.drop_last() =~= messages.take(n - 1));
        assert(prefix.last() == messages[n - 1]);
        lemma_step_keeps_non_negative(start.run(messages.take(n - 1)), messages[n - 1]);
    }
}

} // verus!
