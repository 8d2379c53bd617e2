use vstd::prelude::*;

verus! {

/// Millisecond uptime kept by the triple-timer-counter driver.
///
/// The counter is programmed for one interval interrupt per millisecond; each
/// handled interrupt adds one to the uptime. Register access stays with the
/// caller, which acknowledges the interrupt before calling
/// [`TtcDevice::handle_irq`].
pub struct TtcDevice {
    cnt_ms: i64,
}

impl TtcDevice {
    pub closed spec fn uptime(&self) -> int {
        self.cnt_ms as int
    }

    /// A device whose uptime starts at zero.
    pub fn new() -> (r: TtcDevice)
        ensures
            r.uptime() == 0,
    {
        TtcDevice { cnt_ms: 0 }
    }

    /// Counts one elapsed millisecond.
    pub fn handle_irq(&mut self)
        requires
            old(self).uptime() < i64::MAX,
        ensures
            final(self).uptime() == old(self).uptime() + 1,
    {
        self.cnt_ms = self.cnt_ms + 1;
    }

    /// Milliseconds counted so far.
    pub fn uptime_ms(&self) -> (r: i64)
        ensures
            r == self.uptime(),
    {
        self.cnt_ms
    }
}

} // verus!
