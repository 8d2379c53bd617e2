use vstd::prelude::*;

use crate::device::{EthDevice, Instant};
use crate::frame::{frame_bytes, Buf, MTU};
use crate::handler::EthHandler;
use crate::transport::SharedRegion;

verus! {

/// Sends `payload` from the client, lets the driver relay it, and reads back
/// the next received frame; the TX token that comes with it is given up.
///
/// Returns `None` when no TX buffer could be claimed or nothing came back.
/// When both directions start idle (no frame in flight either way) with a
/// buffer free on each side, the frame read back is `payload`, byte for byte
/// and of the same length.
pub fn ethernet_loopback(
    device: &EthDevice,
    handler: &EthHandler,
    shared: &mut SharedRegion,
    payload: &[u8],
    timestamp: Instant,
) -> (r: Option<Buf>)
    requires
        old(shared).wf(),
        payload@.len() <= MTU,
        handler.channel == device.channel,
    ensures
        final(shared).wf(),
        final(shared).tx.lent() == old(shared).tx.lent(),
        final(shared).rx.lent() == old(shared).rx.lent(),
        old(shared).tx.free_view().len() == 0 ==> r is None && *final(shared) == *old(shared),
        old(shared).tx.free_view().len() > 0 && old(shared).tx.used_view().len() == 0
            && old(shared).rx.used_view().len() == 0 && old(shared).rx.free_view().len() > 0 ==> {
            &&& r is Some
            &&& frame_bytes(r->Some_0) == payload@
        },
{
    let ghost s0 = *shared;
    let token = match device.transmit(shared, timestamp) {
        Some(t) => t,
        None => {
            return None;
        },
    };
    let ghost s1 = *shared;
    let notify = token.consume(shared, payload);
    let ghost s2 = *shared;
    assert(notify is Ok);
    let channel = notify.unwrap();
    let _ = handler.notified(shared, channel);
    let ghost s3 = *shared;
    match device.receive(shared, timestamp) {
        Some((rx, tx)) => {
            proof {
                if s0.tx.used_view().len() == 0 && s0.rx.used_view().len() == 0 && s0.rx.free_view().len() > 0 {
                    let sent = s2.tx.used_view();
                    let spare = s2.rx.free_view();
                    assert(sent.len() == 1);
                    assert(s3.rx.used_view() =~= crate::handler::recycled(spare.take(1)));
                    assert(s3.rx.frames()[crate::pool::slot_of(spare[0]) as int]
                        == s2.tx.frames()[crate::pool::slot_of(sent[0]) as int]);
                    assert(s2.tx.frames()[crate::pool::slot_of(sent[0]) as int] == payload@);
                }
            }
            tx.abandon(shared);
            assert(shared.tx.lent() =~= s0.tx.lent());
            Some(rx.consume())
        },
        None => {
            assert(shared.tx.lent() =~= s0.tx.lent());
            None
        },
    }
}

} // verus!
