//! A slice that only shows its name.

use crate::effect::{Effect, EffectView};
use vstd::prelude::*;

verus! {

/// The text that the slice shows.
pub const DDP_LABEL: &'static str = "DDP";

/// The state of the slice: there is none.
#[derive(Debug, Default, PartialEq, Eq)]
pub struct Ddp {}

/// The message of the slice. It carries nothing and changes nothing.
#[derive(Clone, Copy, Debug, PartialEq, Eq)]
pub struct DdpMessage;

impl View for DdpMessage {
    type V = DdpMessage;

    open spec fn view(&self) -> DdpMessage {
        *self
    }
}

impl Ddp {
    pub fn init() -> (slice: Ddp)
        ensures
            slice == (Ddp {  }),
    {
        Ddp {  }
    }

    /// The text that the slice shows.
    pub fn view(&self) -> (text: String)
        ensures
            text@ == DDP_LABEL@,
    {
        DDP_LABEL.to_owned()
    }

    /// The slice has no state to change, and asks for no work.
    pub fn update(&self, message: DdpMessage) -> (effect: Effect<DdpMessage>)
        ensures
            effect@ == EffectView::<DdpMessage>::Nothing,
    {
        Effect::Nothing
    }
}

} // verus!
