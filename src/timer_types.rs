use vstd::prelude::*;

verus! {

/// Message label of a request to the timer component.
#[derive(Clone, Copy, Debug, PartialEq, Eq, Structural)]
pub enum TimerTag {
    Sleep,
    Uptime,
}

/// Body of a sleep request.
#[derive(Clone, Copy, Debug, PartialEq, Eq, Structural)]
pub struct SleepRequest {
    pub ms: u32,
}

/// Body of the reply to an uptime request: a duration split into whole
/// seconds and the nanoseconds beyond them.
#[derive(Clone, Copy, Debug, PartialEq, Eq, Structural)]
pub struct UptimeValue {
    pub seconds: i64,
    pub nanoseconds: i64,
}

} // verus!
