//! Outcome of the launch-time self-update check.

use vstd::prelude::*;

verus! {

#[derive(Clone, Debug, PartialEq, Eq)]
pub enum Status {
    Idle,
    Disabled,
    Checking,
    UpToDate,
    Applied { version: String },
    Failed { error: String },
}

impl Default for Status {
    fn default() -> (s: Status)
        ensures
            s == Status::Idle,
    {
        Status::Idle
    }
}

} // verus!
