//! Descriptions of deferred work.
//!
//! A transition never performs slow work itself. It returns an [`Effect`],
//! which the host loop carries out away from the interactive thread; every
//! background [`Job`] ends in exactly one message that is fed back in.

use crate::system_info::SystemInformation;
use vstd::prelude::*;

verus! {

/// A background computation that the host runs off the interactive thread.
#[derive(Debug, PartialEq, Eq)]
pub enum Job {
    /// Ask the user for an image file in a modal dialog.
    PickImageFile,
    /// Read the file at this path so that it can be decoded.
    LoadImage(String),
    /// Show a modal error alert.
    Alert { title: String, text: String },
    /// Ask the user for a folder in a modal dialog.
    PickFolder,
    /// Query the operating system for its name, kernel and version.
    FetchSystemInformation,
}

/// The mathematical value of a [`Job`].
pub enum JobView {
    PickImageFile,
    LoadImage(Seq<char>),
    Alert { title: Seq<char>, text: Seq<char> },
    PickFolder,
    FetchSystemInformation,
}

impl View for Job {
    type V = JobView;

    open spec fn view(&self) -> JobView {
        match *self {
            Job::PickImageFile => JobView::PickImageFile,
            Job::LoadImage(path) => JobView::LoadImage(path@),
            Job::Alert { title, text } => JobView::Alert { title: title@, text: text@ },
            Job::PickFolder => JobView::PickFolder,
            Job::FetchSystemInformation => JobView::FetchSystemInformation,
        }
    }
}

/// What a finished [`Job`] hands back to the application.
#[derive(Debug, PartialEq, Eq)]
pub enum Outcome {
    /// Of `PickImageFile`: the chosen file, or none if the user cancelled.
    ImageFile(Option<String>),
    /// Of `LoadImage`: the contents of the file, or none if it is unreadable.
    ImageContents(Option<Vec<u8>>),
    /// Of `Alert`: the user has closed the alert.
    AlertClosed,
    /// Of `PickFolder`: the chosen folder, or none if the user cancelled.
    Folder(Option<String>),
    /// Of `FetchSystemInformation`: what the operating system reported.
    SystemInformation(SystemInformation),
}

impl Outcome {
    /// Whether this is an outcome that `job` can end in.
    pub open spec fn answers(self, job: JobView) -> bool {
        match job {
            JobView::PickImageFile => self is ImageFile,
            JobView::LoadImage(_) => self is ImageContents,
            JobView::Alert { .. } => self is AlertClosed,
            JobView::PickFolder => self is Folder,
            JobView::FetchSystemInformation => self is SystemInformation,
        }
    }
}

/// Deferred work returned by a transition, over messages of type `M`.
#[derive(Debug, PartialEq, Eq)]
pub enum Effect<M> {
    /// Nothing happens.
    Nothing,
    /// The message re-enters the dispatcher on the next turn of the loop.
    Immediate(M),
    /// The job runs in the background and ends in exactly one message.
    Async(Job),
    /// All members are started together; their messages arrive independently.
    Batch(Vec<Effect<M>>),
}

/// The mathematical value of an [`Effect`], over the views of its messages.
pub enum EffectView<V> {
    Nothing,
    Immediate(V),
    Async(JobView),
    Batch(Seq<EffectView<V>>),
}

/// The value of an effect: its own shape, over the values of its messages.
pub open spec fn effect_view<M: View>(effect: Effect<M>) -> EffectView<M::V>
    decreases effect,
{
    match effect {
        Effect::Nothing => EffectView::Nothing,
        Effect::Immediate(message) => EffectView::Immediate(message@),
        Effect::Async(job) => EffectView::Async(job@),
        Effect::Batch(members) => EffectView::Batch(
            Seq::new(
                members.len() as nat,
                |i: int|
                    if 0 <= i < members.len() {
                        effect_view(members[i])
                    } else {
                        EffectView::Nothing
                    },
            ),
        ),
    }
}

impl<M: View> View for Effect<M> {
    type V = EffectView<M::V>;

    open spec fn view(&self) -> EffectView<M::V> {
        effect_view(*self)
    }
}

/// A long-lived source of messages that the host keeps registered while a
/// state asks for it.
#[derive(Debug, PartialEq, Eq)]
pub enum SubscriptionHandle<M> {
    /// A timer that emits `message` once per period.
    Every { seconds: u64, message: M },
}

/// The mathematical value of a [`SubscriptionHandle`].
pub enum SubscriptionView<V> {
    Every { seconds: u64, message: V },
}

impl<M: View> View for SubscriptionHandle<M> {
    type V = SubscriptionView<M::V>;

    open spec fn view(&self) -> SubscriptionView<M::V> {
        match self {
            SubscriptionHandle::Every { seconds, message } => SubscriptionView::Every {
                seconds: *seconds,
                message: message@,
            },
        }
    }
}

/// The values of a list of sources.
pub open spec fn source_views<M: View>(handles: Seq<SubscriptionHandle<M>>) -> Seq<
    SubscriptionView<M::V>,
> {
    Seq::new(handles.len(), |i: int| handles[i]@)
}

/// A message type that can carry the messages of one slice, tagged with that
/// slice, so that they route back to it.
pub trait Envelope<M: View>: View + Sized {
    /// The value of the envelope around a slice message.
    spec fn enclosing(message: M::V) -> Self::V;

    /// Tags a slice message with its slice.
    fn enclose(message: M) -> (envelope: Self)
        ensures
            envelope@ == Self::enclosing(message@),
    ;
}

/// The effect `effect` of a slice, with each message it carries enclosed in
/// an `N`. Jobs and the shape of batches are kept.
pub open spec fn retagged<M: View, N: Envelope<M>>(effect: EffectView<M::V>) -> EffectView<N::V>
    decreases effect,
{
    match effect {
        EffectView::Nothing => EffectView::Nothing,
        EffectView::Immediate(message) => EffectView::Immediate(N::enclosing(message)),
        EffectView::Async(job) => EffectView::Async(job),
        EffectView::Batch(members) => EffectView::Batch(
            Seq::new(
                members.len(),
                |i: int|
                    if 0 <= i < members.len() {
                        retagged::<M, N>(members[i])
                    } else {
                        EffectView::Nothing
                    },
            ),
        ),
    }
}

/// The source `handle` of a slice, with the message it emits enclosed in an
/// `N`.
pub open spec fn retagged_source<M: View, N: Envelope<M>>(
    handle: SubscriptionView<M::V>,
) -> SubscriptionView<N::V> {
    match handle {
        SubscriptionView::Every { seconds, message } => SubscriptionView::Every {
            seconds,
            message: N::enclosing(message),
        },
    }
}

impl<M: View> SubscriptionHandle<M> {
    /// Re-tags the source of a slice for the dispatcher, keeping its period.
    pub fn retag<N: Envelope<M>>(self) -> (out: SubscriptionHandle<N>)
        ensures
            out@ == retagged_source::<M, N>(self@),
    {
        match self {
            SubscriptionHandle::Every { seconds, message } => SubscriptionHandle::Every {
                seconds,
                message: N::enclose(message),
            },
        }
    }
}

impl<M: View> Effect<M> {
    /// Re-tags the effect of a slice for the dispatcher: every message in it
    /// is enclosed in an `N`, everything else is kept as it is.
    pub fn retag<N: Envelope<M>>(self) -> (out: Effect<N>)
        ensures
            out@ == retagged::<M, N>(self@),
        decreases self,
    {
        match self {
            Effect::Nothing => Effect::Nothing,
            Effect::Immediate(message) => Effect::Immediate(N::enclose(message)),
            Effect::Async(job) => Effect::Async(job),
            Effect::Batch(members) => {
                let ghost before = members;
                let mut rest = members;
                let mut done: Vec<Effect<N>> = Vec::new();
                while rest.len() > 0
                    invariant
                        done.len() + rest.len() == before.len(),
                        forall|i: int|
                            0 <= i < rest.len() ==> rest[i] == before[done.len() + i],
                        forall|i: int|
                            0 <= i < done.len() ==> done[i]@ == retagged::<M, N>(
                                #[trigger] before[i]@,
                            ),
                        self == Effect::Batch(before),
                    decreases rest.len(),
                {
                    let member = rest.remove(0);
                    proof {
                        assert(member == before[done.len() as int]);
                        lemma_member_decreases(before, done.len() as int);
                    }
                    done.push(member.retag());
                }
                let out = Effect::Batch(done);
                proof {
                    let given = self@->Batch_0;
                    let wanted = retagged::<M, N>(self@)->Batch_0;
                    let made = out@->Batch_0;
                    assert forall|i: int| 0 <= i < made.len() implies made[i] == wanted[i] by {
                        assert(given[i] == before[i]@);
                    }
                    assert(made =~= wanted);
                }
                out
            },
        }
    }
}

/// Every member of a batch is structurally smaller than the batch.
pub proof fn lemma_member_decreases<M>(members: Vec<Effect<M>>, i: int)
    requires
        0 <= i < members.len(),
    ensures
        decreases_to!(Effect::<M>::Batch(members) => members[i]),
{
    let batch = Effect::<M>::Batch(members);
    assert(decreases_to!(batch => batch->Batch_0));
    assert(decreases_to!(members => members[i]));
}

} // verus!
