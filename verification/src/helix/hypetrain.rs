//! Hype-train endpoints: the event types they report.

use vstd::prelude::*;

verus! {

/// Type of a hype-train event.
#[derive(Clone, Copy, Debug, PartialEq, Eq, Structural)]
pub enum HypeTrainEventType {
    /// Progression, currently the only kind the endpoint reports.
    Progression,
}

impl HypeTrainEventType {
    /// The wire-level name of this event type.
    pub fn to_wire(&self) -> (r: &'static str)
        ensures
            r@ == "hypetrain.progression"@,
    {
        "hypetrain.progression"
    }
}

} // verus!
