//! Shared status values the workers publish and the interfaces show.

use vstd::prelude::*;

verus! {

#[derive(Clone, Copy, Debug, PartialEq, Eq, Structural)]
pub enum HidStatus {
    Disconnected,
    Connected,
    Error,
}

impl HidStatus {
    /// The status's name on the wire format of the state snapshot.
    pub fn wire_name(self) -> (r: &'static str)
        ensures
            r@ == (match self {
                HidStatus::Disconnected => "disconnected"@,
                HidStatus::Connected => "connected"@,
                HidStatus::Error => "error"@,
            }),
    {
        match self {
            HidStatus::Disconnected => "disconnected",
            HidStatus::Connected => "connected",
            HidStatus::Error => "error",
        }
    }
}

} // verus!
