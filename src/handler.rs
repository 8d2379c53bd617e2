use vstd::prelude::*;

use crate::pool::{seeded, slot_of};
use crate::ring::Descriptor;
use crate::transport::{Channel, SharedRegion, RX_BUF_SIZE, TX_BUF_SIZE};

verus! {

/// A notification arrived on a channel that is not bound to this component.
#[derive(Clone, Copy, Debug, PartialEq, Eq, Structural)]
pub struct UnboundChannel;

/// What one notification achieved.
#[derive(Clone, Copy, Debug, PartialEq, Eq, Structural)]
pub struct RelayReport {
    /// Frames copied into a receive buffer and published on the RX used ring.
    pub relayed: usize,
    /// Frames taken off the TX used ring with no receive buffer to hold them.
    pub dropped: usize,
}

/// Full-size descriptors for the slots named by `ds`, in the same order.
pub open spec fn recycled(ds: Seq<Descriptor>) -> Seq<Descriptor> {
    ds.map_values(|d: Descriptor| Descriptor::new_spec(d.encoded_addr))
}

/// Driver-side end of a transport: loops every frame the client sends back to
/// the client's receive direction.
pub struct EthHandler {
    pub channel: Channel,
}

impl EthHandler {
    /// Sets up the shared memory: every slot of each direction goes on its free
    /// ring, in slot order, and every buffer starts empty.
    pub fn new(channel: Channel, shared: &mut SharedRegion) -> (r: EthHandler)
        requires
            old(shared).is_blank(),
        ensures
            r.channel == channel,
            final(shared).wf(),
            final(shared).tx.free_view() == seeded(TX_BUF_SIZE as nat),
            final(shared).rx.free_view() == seeded(RX_BUF_SIZE as nat),
            final(shared).tx.used_view().len() == 0,
            final(shared).rx.used_view().len() == 0,
            final(shared).tx.lent().is_empty(),
            final(shared).rx.lent().is_empty(),
            forall|i: int| 0 <= i < TX_BUF_SIZE ==> (#[trigger] final(shared).tx.frames()[i]).len() == 0,
            forall|i: int| 0 <= i < RX_BUF_SIZE ==> (#[trigger] final(shared).rx.frames()[i]).len() == 0,
    {
        shared.tx.seed();
        shared.rx.seed();
        EthHandler { channel }
    }

    /// Handles a notification from the client.
    ///
    /// On the bound channel every frame on the TX used ring is taken in order.
    /// While the RX free ring has a slot, the frame is copied into it and that
    /// slot is published on the RX used ring; once it has none, frames are
    /// dropped. Either way the TX slot goes back to the TX free ring.
    pub fn notified(&self, shared: &mut SharedRegion, channel: Channel) -> (r: Result<
        RelayReport,
        UnboundChannel,
    >)
        requires
            old(shared).wf(),
        ensures
            final(shared).wf(),
            channel != self.channel ==> r == Err::<RelayReport, UnboundChannel>(UnboundChannel)
                && *final(shared) == *old(shared),
            channel == self.channel ==> ({
                let sent = old(shared).tx.used_view();
                let spare = old(shared).rx.free_view();
                let n = if sent.len() < spare.len() {
                    sent.len()
                } else {
                    spare.len()
                };
                &&& r == Ok::<RelayReport, UnboundChannel>(
                    RelayReport { relayed: n as usize, dropped: (sent.len() - n) as usize },
                )
                &&& final(shared).tx.used_view().len() == 0
                &&& final(shared).tx.free_view() == old(shared).tx.free_view() + recycled(sent)
                &&& final(shared).tx.frames() == old(shared).tx.frames()
                &&& final(shared).tx.lent() == old(shared).tx.lent()
                &&& final(shared).rx.free_view() == spare.subrange(n as int, spare.len() as int)
                &&& final(shared).rx.used_view() == old(shared).rx.used_view() + recycled(
                    spare.take(n as int),
                )
                &&& final(shared).rx.lent() == old(shared).rx.lent()
                &&& forall|i: int|
                    0 <= i < n ==> #[trigger] final(shared).rx.frames()[slot_of(spare[i]) as int]
                        == old(shared).tx.frames()[slot_of(sent[i]) as int]
                &&& forall|s: int|
                    0 <= s < RX_BUF_SIZE && (forall|i: int| 0 <= i < n ==> slot_of(#[trigger] spare[i]) != s)
                        ==> #[trigger] final(shared).rx.frames()[s] == old(shared).rx.frames()[s]
            }),
    {
        if channel != self.channel {
            return Err(UnboundChannel);
        }
        let ghost o = *shared;
        let ghost sent = o.tx.used_view();
        let ghost spare = o.rx.free_view();
        let ghost k = sent.len();
        let ghost m = spare.len();
        let mut relayed: usize = 0;
        let mut dropped: usize = 0;
        while shared.tx.used_len() > 0
            invariant
                o.wf(),
                sent == o.tx.used_view(),
                spare == o.rx.free_view(),
                k == sent.len(),
                m == spare.len(),
                shared.wf(),
                relayed + dropped <= k,
                relayed <= m,
                relayed < m ==> dropped == 0,
                shared.tx.used_view() == sent.subrange(relayed + dropped, k as int),
                shared.tx.free_view() == o.tx.free_view() + recycled(sent.take(relayed + dropped)),
                shared.tx.frames() == o.tx.frames(),
                shared.tx.lent() == o.tx.lent(),
                shared.rx.free_view() == spare.subrange(relayed as int, m as int),
                shared.rx.used_view() == o.rx.used_view() + recycled(spare.take(relayed as int)),
                shared.rx.lent() == o.rx.lent(),
                forall|i: int|
                    0 <= i < relayed ==> #[trigger] shared.rx.frames()[slot_of(spare[i]) as int]
                        == o.tx.frames()[slot_of(sent[i]) as int],
                forall|s: int|
                    0 <= s < RX_BUF_SIZE && (forall|i: int| 0 <= i < relayed ==> slot_of(#[trigger] spare[i]) != s)
                        ==> #[trigger] shared.rx.frames()[s] == o.rx.frames()[s],
            decreases k - (relayed + dropped),
        {
            let ghost before = *shared;
            let tx_desc = shared.tx.claim_used().unwrap();
            let tx_slot = tx_desc.encoded_addr;
            assert(tx_desc == sent[relayed + dropped]);
            match shared.rx.claim_free() {
                Some(rx_desc) => {
                    let rx_slot = rx_desc.encoded_addr;
                    assert(rx_desc == spare[relayed as int]);
                    let ghost prev = shared.rx.frames();
                    assert(prev == before.rx.frames());
                    let bytes = shared.tx.frame_of(tx_slot);
                    shared.rx.write_frame(rx_slot, bytes);
                    shared.rx.release_used(rx_slot);
                    assert(shared.rx.frames() == prev.update(rx_slot as int, o.tx.frames()[tx_slot as int]));
                    proof {
                        assert forall|i: int| 0 <= i < relayed implies slot_of(#[trigger] spare[i]) != rx_slot by {
                            assert(crate::pool::exclusive(spare, o.rx.used_view(), o.rx.lent(), o.rx.size()));
                        }
                        assert(recycled(spare.take(relayed as int)).push(Descriptor::new_spec(rx_slot))
                            =~= recycled(spare.take(relayed + 1)));
                        assert(shared.rx.used_view() =~= o.rx.used_view() + recycled(spare.take(relayed + 1)));
                        assert(shared.rx.free_view() =~= spare.subrange(relayed + 1, m as int));
                        assert(relayed + dropped == relayed);
                        assert forall|i: int| 0 <= i < relayed + 1 implies #[trigger] shared.rx.frames()[slot_of(spare[i]) as int]
                            == o.tx.frames()[slot_of(sent[i]) as int] by {
                            if i < relayed {
                                assert(slot_of(spare[i]) != rx_slot);
                                assert(prev[slot_of(spare[i]) as int] == o.tx.frames()[slot_of(sent[i]) as int]);
                            } else {
                                assert(spare[i] == rx_desc);
                                assert(sent[i] == tx_desc);
                            }
                        }
                        assert forall|s: int|
                            0 <= s < RX_BUF_SIZE && (forall|i: int| 0 <= i < relayed + 1 ==> slot_of(#[trigger] spare[i]) != s)
                            implies #[trigger] shared.rx.frames()[s] == o.rx.frames()[s] by {
                            assert(slot_of(spare[relayed as int]) != s);
                            assert forall|i: int| 0 <= i < relayed implies slot_of(#[trigger] spare[i]) != s by {
                                assert(slot_of(spare[i]) != s);
                            }
                            assert(prev[s] == o.rx.frames()[s]);
                        }
                    }
                    relayed = relayed + 1;
                },
                None => {
                    dropped = dropped + 1;
                },
            }
            shared.tx.release_free(tx_slot);
            proof {
                assert(recycled(sent.take(relayed + dropped - 1)).push(Descriptor::new_spec(tx_slot))
                    =~= recycled(sent.take(relayed + dropped)));
                assert(shared.tx.free_view() =~= o.tx.free_view() + recycled(sent.take(relayed + dropped)));
                assert(shared.tx.used_view() =~= sent.subrange(relayed + dropped, k as int));
                assert(shared.tx.lent() =~= o.tx.lent());
                assert(shared.rx.lent() =~= o.rx.lent());
            }
        }
        Ok(RelayReport { relayed, dropped })
    }
}

} // verus!
