use vstd::prelude::*;

verus! {

/// Message label of a request to the timer component.
#[derive(Clone, Copy, Debug, PartialEq, Eq, Structural)]
pub enum TimerRequest {
    Sleep,
    Uptime,
}

/// Body of a sleep request.
#[derive(Clone, Copy, Debug, PartialEq, Eq, Structural)]
pub struct SleepRequest {
    pub ms: i64,
}

/// Body of the reply to an uptime request.
#[derive(Clone, Copy, Debug, PartialEq, Eq, Structural)]
pub struct UptimeValue {
    pub ms: i64,
}

} // verus!
