use vstd::prelude::*;

use crate::pool::{exclusive, slot_of, Pool};

verus! {

/// Number of buffers available for transmitting frames.
pub const TX_BUF_SIZE: usize = 4;

/// Number of buffers available for receiving frames.
pub const RX_BUF_SIZE: usize = 4;

/// Identifier of a notification channel between two components.
#[derive(Clone, Copy, Debug, PartialEq, Eq, Structural)]
pub struct Channel {
    pub index: usize,
}

impl Channel {
    pub fn new(index: usize) -> (r: Channel)
        ensures
            r.index == index,
    {
        Channel { index }
    }
}

/// The memory that a driver and a client share for one transport: the TX and
/// the RX direction, each with its free ring, used ring and buffers.
pub struct SharedRegion {
    pub tx: Pool,
    pub rx: Pool,
}

impl SharedRegion {
    /// Both directions are consistent, every slot of each is in exactly one
    /// place, and the pools have their agreed sizes.
    pub open spec fn wf(&self) -> bool {
        &&& self.tx.wf()
        &&& self.rx.wf()
        &&& self.tx.size() == TX_BUF_SIZE
        &&& self.rx.size() == RX_BUF_SIZE
    }

    /// Freshly mapped memory, before the driver side has set it up.
    pub open spec fn is_blank(&self) -> bool {
        &&& self.tx.is_blank()
        &&& self.rx.is_blank()
        &&& self.tx.size() == TX_BUF_SIZE
        &&& self.rx.size() == RX_BUF_SIZE
    }

    /// Empty rings and empty buffers of the agreed sizes.
    pub fn new() -> (r: SharedRegion)
        ensures
            r.is_blank(),
    {
        SharedRegion { tx: Pool::new(TX_BUF_SIZE), rx: Pool::new(RX_BUF_SIZE) }
    }
}

/// Conservation: in each direction, the descriptors on the free ring and on
/// the used ring, together with the slots claimed by one side and not yet
/// given back, always number exactly the buffers of that direction. No
/// descriptor is ever made or lost; with nothing claimed, free and used alone
/// account for every buffer.
pub proof fn lemma_conservation(s: SharedRegion)
    requires
        s.wf(),
    ensures
        s.tx.free_view().len() + s.tx.used_view().len() + s.tx.lent().len() == TX_BUF_SIZE,
        s.rx.free_view().len() + s.rx.used_view().len() + s.rx.lent().len() == RX_BUF_SIZE,
        s.tx.lent().len() == 0 ==> s.tx.free_view().len() + s.tx.used_view().len() == TX_BUF_SIZE,
        s.rx.lent().len() == 0 ==> s.rx.free_view().len() + s.rx.used_view().len() == RX_BUF_SIZE,
{
}

/// Slot exclusivity: in either direction no buffer slot is named twice across
/// the free and used rings, and no queued descriptor names a slot that one
/// side holds claimed.
pub proof fn lemma_slot_exclusive(p: Pool, i: int, j: int)
    requires
        p.wf(),
    ensures
        0 <= i < j < p.free_view().len() ==> slot_of(p.free_view()[i]) != slot_of(p.free_view()[j]),
        0 <= i < j < p.used_view().len() ==> slot_of(p.used_view()[i]) != slot_of(p.used_view()[j]),
        0 <= i < p.free_view().len() && 0 <= j < p.used_view().len() ==> slot_of(p.free_view()[i])
            != slot_of(p.used_view()[j]),
        0 <= i < p.free_view().len() ==> slot_of(p.free_view()[i]) < p.size() && !p.lent().contains(
            slot_of(p.free_view()[i]),
        ),
        0 <= i < p.used_view().len() ==> slot_of(p.used_view()[i]) < p.size() && !p.lent().contains(
            slot_of(p.used_view()[i]),
        ),
{
    assert(exclusive(p.free_view(), p.used_view(), p.lent(), p.size()));
}

} // verus!
