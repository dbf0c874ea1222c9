//! What the host loop does with an effect, and how it admits timer ticks.
//!
//! The dispatcher only describes deferred work. The host carries it out; the
//! decisions it needs for that are made here, so that the host itself holds
//! nothing but the calls that do the work.

use crate::effect::{retagged, Effect, EffectView, Envelope, Job, JobView};
use vstd::prelude::*;

verus! {

/// One thing that the host does for an effect. Each ends in exactly one
/// message to the dispatcher.
#[derive(Debug, PartialEq, Eq)]
pub enum Action<M> {
    /// Hand the message to the dispatcher on the next turn of the loop.
    Deliver(M),
    /// Run the job on a background worker and hand its answer to the
    /// dispatcher when it is done.
    Run(Job),
}

/// The mathematical value of an [`Action`].
pub enum ActionView<V> {
    Deliver(V),
    Run(JobView),
}

impl<M: View> View for Action<M> {
    type V = ActionView<M::V>;

    open spec fn view(&self) -> ActionView<M::V> {
        match self {
            Action::Deliver(message) => ActionView::Deliver(message@),
            Action::Run(job) => ActionView::Run(job@),
        }
    }
}

/// The values of a list of actions.
pub open spec fn action_views<M: View>(steps: Seq<Action<M>>) -> Seq<ActionView<M::V>> {
    Seq::new(steps.len(), |i: int| steps[i]@)
}

/// The actions that an effect stands for, in the order in which they are
/// started: none for an empty effect, one for a message or a job, and for a
/// batch the actions of its members, first to last.
pub open spec fn actions<V>(effect: EffectView<V>) -> Seq<ActionView<V>>
    decreases effect, 0nat,
{
    match effect {
        EffectView::Nothing => seq![],
        EffectView::Immediate(message) => seq![ActionView::Deliver(message)],
        EffectView::Async(job) => seq![ActionView::Run(job)],
        EffectView::Batch(members) => batch_actions(members, members.len()),
    }
}

/// The actions of the first `n` members of a batch.
pub open spec fn batch_actions<V>(members: Seq<EffectView<V>>, n: nat) -> Seq<ActionView<V>>
    decreases members, n,
{
    if 0 < n <= members.len() {
        batch_actions(members, (n - 1) as nat) + actions(members[n - 1])
    } else {
        seq![]
    }
}

impl<M: View> Effect<M> {
    /// Appends the actions of this effect to `steps`.
    fn plan_into(self, steps: &mut Vec<Action<M>>)
        ensures
            action_views(final(steps)@) == action_views(old(steps)@) + actions(self@),
        decreases self,
    {
        let ghost start = action_views(steps@);
        match self {
            Effect::Nothing => {
                assert(action_views(steps@) =~= start + actions(self@));
            },
            Effect::Immediate(message) => {
                steps.push(Action::Deliver(message));
                assert(action_views(steps@) =~= start + actions(self@));
            },
            Effect::Async(job) => {
                steps.push(Action::Run(job));
                assert(action_views(steps@) =~= start + actions(self@));
            },
            Effect::Batch(members) => {
                let ghost before = members;
                let ghost given = self@->Batch_0;
                let mut rest = members;
                let ghost mut taken: nat = 0;
                assert(action_views(steps@) =~= start + batch_actions(given, 0));
                while rest.len() > 0
                    invariant
                        self == Effect::<M>::Batch(before),
                        given == self@->Batch_0,
                        taken + rest.len() == before.len(),
                        forall|i: int| 0 <= i < rest.len() ==> rest[i] == before[taken + i],
                        action_views(steps@) == start + batch_actions(given, taken),
                    decreases rest.len(),
                {
                    let member = rest.remove(0);
                    proof {
                        assert(given[taken as int] == member@);
                        crate::effect::lemma_member_decreases(before, taken as int);
                    }
                    member.plan_into(steps);
                    proof {
                        assert(action_views(steps@) =~= start + batch_actions(given, taken + 1));
                        taken = taken + 1;
                    }
                }
            },
        }
    }

    /// The actions that the host starts for this effect, in order. A batch
    /// is flattened: all its members are started together, and each of them
    /// answers on its own.
    pub fn plan(self) -> (steps: Vec<Action<M>>)
        ensures
            action_views(steps@) == actions(self@),
            steps@.len() == actions(self@).len(),
    {
        let mut steps: Vec<Action<M>> = Vec::new();
        self.plan_into(&mut steps);
        assert(action_views(Seq::<Action<M>>::empty()) + actions(self@) =~= actions(self@));
        steps
    }
}

/// The action `action` of a slice, with the message it delivers enclosed in
/// an `N`. A job is kept as it is.
pub open spec fn retagged_action<M: View, N: Envelope<M>>(action: ActionView<M::V>) -> ActionView<
    N::V,
> {
    match action {
        ActionView::Deliver(message) => ActionView::Deliver(N::enclosing(message)),
        ActionView::Run(job) => ActionView::Run(job),
    }
}

/// Whether `tagged` holds the actions of `plain`, one for one and in the
/// same order, each re-tagged for `N`.
pub open spec fn is_retagged_plan<M: View, N: Envelope<M>>(
    plain: Seq<ActionView<M::V>>,
    tagged: Seq<ActionView<N::V>>,
) -> bool {
    &&& tagged.len() == plain.len()
    &&& forall|i: int|
        0 <= i < plain.len() ==> #[trigger] tagged[i] == retagged_action::<M, N>(plain[i])
}

/// Re-tagging the effect of a slice changes nothing in what the host has to
/// do: the same jobs run and the same messages are delivered, in the same
/// order, and each message is enclosed in the tag of the slice.
pub proof fn lemma_retag_keeps_the_plan<M: View, N: Envelope<M>>(effect: EffectView<M::V>)
    ensures
        is_retagged_plan::<M, N>(actions(effect), actions(retagged::<M, N>(effect))),
    decreases effect, 0nat,
{
    match effect {
        EffectView::Batch(members) => {
            let tagged = retagged::<M, N>(effect)->Batch_0;
            lemma_retag_keeps_the_plan_of_a_batch::<M, N>(members, tagged, members.len());
        },
        _ => {},
    }
}

/// The same for the first `n` members of a batch.
proof fn lemma_retag_keeps_the_plan_of_a_batch<M: View, N: Envelope<M>>(
    members: Seq<EffectView<M::V>>,
    tagged: Seq<EffectView<N::V>>,
    n: nat,
)
    requires
        tagged.len() == members.len(),
        forall|i: int| 0 <= i < members.len() ==> tagged[i] == retagged::<M, N>(members[i]),
        n <= members.len(),
    ensures
        is_retagged_plan::<M, N>(batch_actions(members, n), batch_actions(tagged, n)),
    decreases members, n,
{
    if n > 0 {
        let earlier = (n - 1) as nat;
        lemma_retag_keeps_the_plan_of_a_batch::<M, N>(members, tagged, earlier);
        lemma_retag_keeps_the_plan::<M, N>(members[n - 1]);
        let plain = batch_actions(members, n);
        let made = batch_actions(tagged, n);
        assert(plain == batch_actions(members, earlier) + actions(members[n - 1]));
        assert(made == batch_actions(tagged, earlier) + actions(tagged[n - 1]));
        assert forall|i: int| 0 <= i < plain.len() implies #[trigger] made[i] == retagged_action::<
            M,
            N,
        >(plain[i]) by {
            let split = batch_actions(members, earlier).len();
            if i >= split {
                assert(plain[i] == actions(members[n - 1])[i - split]);
                assert(made[i] == actions(tagged[n - 1])[i - split]);
            }
        }
    }
}

/// What happens at one long-lived source.
#[derive(Clone, Copy, Debug, PartialEq, Eq, Structural)]
pub enum SourceEvent {
    /// The source fired.
    Tick,
    /// The dispatcher has processed the message of an earlier tick.
    Processed,
}

/// What the host does with a tick.
#[derive(Clone, Copy, Debug, PartialEq, Eq, Structural)]
pub enum Admission {
    /// Hand the message of the source to the dispatcher.
    Deliver,
    /// Drop the tick: the message of an earlier one is still on its way.
    Coalesce,
}

/// The latch of one long-lived source. It lets at most one message of the
/// source be in flight, and drops every tick that fires in the meantime, so
/// that ticks never queue up behind a busy dispatcher.
#[derive(Clone, Copy, Debug, PartialEq, Eq, Structural)]
pub struct TickLatch {
    pub in_flight: bool,
}

impl TickLatch {
    /// The latch after one event.
    pub open spec fn step(self, event: SourceEvent) -> TickLatch {
        match event {
            SourceEvent::Tick => TickLatch { in_flight: true },
            SourceEvent::Processed => TickLatch { in_flight: false },
        }
    }

    /// The latch after a sequence of events, applied first to last.
    pub open spec fn run(self, events: Seq<SourceEvent>) -> TickLatch
        decreases events.len(),
    {
        if events.len() == 0 {
            self
        } else {
            self.run(events.drop_last()).step(events.last())
        }
    }

    /// How many messages are in flight after a sequence of events at a latch
    /// that had `before` in flight: a tick adds one unless one is in flight
    /// already, and a processed message takes one away.
    pub open spec fn in_flight_after(before: nat, events: Seq<SourceEvent>) -> nat
        decreases events.len(),
    {
        if events.len() == 0 {
            before
        } else {
            let earlier = TickLatch::in_flight_after(before, events.drop_last());
            match events.last() {
                SourceEvent::Tick => if earlier == 0 {
                    1
                } else {
                    earlier
                },
                SourceEvent::Processed => if earlier == 0 {
                    0
                } else {
                    (earlier - 1) as nat
                },
            }
        }
    }

    /// A latch with nothing in flight.
    pub fn new() -> (latch: TickLatch)
        ensures
            !latch.in_flight,
    {
        TickLatch { in_flight: false }
    }

    /// Admits or drops a tick. The tick is delivered exactly when nothing is
    /// in flight; a dropped tick leaves the latch as it was.
    pub fn tick(&mut self) -> (admission: Admission)
        ensures
            *final(self) == old(self).step(SourceEvent::Tick),
            admission == if old(self).in_flight {
                Admission::Coalesce
            } else {
                Admission::Deliver
            },
            admission == Admission::Coalesce ==> *final(self) == *old(self),
    {
        if self.in_flight {
            Admission::Coalesce
        } else {
            self.in_flight = true;
            Admission::Deliver
        }
    }

    /// Notes that the dispatcher has processed the message in flight.
    pub fn processed(&mut self)
        ensures
            *final(self) == old(self).step(SourceEvent::Processed),
            !final(self).in_flight,
    {
        self.in_flight = false;
    }
}

/// Whatever fires and whenever the dispatcher gets to it, at most one
/// message of a source is in flight, and the latch knows whether one is.
pub proof fn lemma_at_most_one_in_flight(latch: TickLatch, events: Seq<SourceEvent>)
    ensures
        ({
            let before: nat = if latch.in_flight {
                1
            } else {
                0
            };
            let after = TickLatch::in_flight_after(before, events);
            after <= 1 && latch.run(events).in_flight == (after == 1)
        }),
    decreases events.len(),
{
    if events.len() > 0 {
        lemma_at_most_one_in_flight(latch, events.drop_last());
    }
}

} // verus!
