use vstd::prelude::*;

use crate::frame::{frame_bytes, Buf, MTU};
use crate::pool::slot_of;
use crate::ring::Descriptor;
use crate::transport::{Channel, SharedRegion};

verus! {

/// A point in time, in microseconds, as handed down by the network stack.
#[derive(Clone, Copy, Debug, PartialEq, Eq, Structural)]
pub struct Instant {
    pub micros: i64,
}

/// A transmit asked for more bytes than a frame buffer holds.
#[derive(Clone, Copy, Debug, PartialEq, Eq, Structural)]
pub struct FrameTooLong;

/// Link medium reported to the network stack.
#[derive(Clone, Copy, Debug, PartialEq, Eq, Structural)]
pub enum Medium {
    Ethernet,
}

/// Which side computes a checksum.
#[derive(Clone, Copy, Debug, PartialEq, Eq, Structural)]
pub enum Checksum {
    Both,
    Tx,
    Rx,
    Neither,
}

/// Checksum offload per protocol.
#[derive(Clone, Copy, Debug, PartialEq, Eq, Structural)]
pub struct ChecksumCaps {
    pub ipv4: Checksum,
    pub udp: Checksum,
    pub tcp: Checksum,
    pub icmpv4: Checksum,
}

/// What a device tells the network stack about itself.
#[derive(Clone, Copy, Debug, PartialEq, Eq, Structural)]
pub struct DeviceCaps {
    pub medium: Medium,
    pub max_transmission_unit: usize,
    pub max_burst_size: Option<usize>,
    pub checksum: ChecksumCaps,
}

/// Ethernet, one MTU per frame, no burst limit, no checksum offload.
pub open spec fn ethernet_caps_spec() -> DeviceCaps {
    DeviceCaps {
        medium: Medium::Ethernet,
        max_transmission_unit: MTU,
        max_burst_size: Option::None,
        checksum: ChecksumCaps {
            ipv4: Checksum::Neither,
            udp: Checksum::Neither,
            tcp: Checksum::Neither,
            icmpv4: Checksum::Neither,
        },
    }
}

pub fn ethernet_caps() -> (r: DeviceCaps)
    ensures
        r == ethernet_caps_spec(),
{
    DeviceCaps {
        medium: Medium::Ethernet,
        max_transmission_unit: MTU,
        max_burst_size: Option::None,
        checksum: ChecksumCaps {
            ipv4: Checksum::Neither,
            udp: Checksum::Neither,
            tcp: Checksum::Neither,
            icmpv4: Checksum::Neither,
        },
    }
}

/// The right to fill one claimed TX buffer and send it.
///
/// It names a slot lent out of the TX pool; it must end in exactly one of
/// [`TxToken::consume`] or [`TxToken::abandon`], which give the slot back.
pub struct TxToken {
    pub desc: Descriptor,
    pub timestamp: Instant,
    pub channel: Channel,
}

impl TxToken {
    /// Slot of the buffer this token holds.
    pub open spec fn slot(&self) -> nat {
        slot_of(self.desc)
    }

    /// Writes `frame` into the claimed buffer, puts its descriptor on the TX
    /// used ring and returns the channel to notify.
    ///
    /// A frame longer than [`MTU`] is refused: the token is abandoned instead
    /// and the shared buffers keep no part of it.
    pub fn consume(self, shared: &mut SharedRegion, frame: &[u8]) -> (r: Result<Channel, FrameTooLong>)
        requires
            old(shared).wf(),
            old(shared).tx.lent().contains(self.slot()),
        ensures
            final(shared).wf(),
            final(shared).rx == old(shared).rx,
            final(shared).tx.lent() == old(shared).tx.lent().remove(self.slot()),
            frame@.len() <= MTU ==> {
                &&& r == Ok::<Channel, FrameTooLong>(self.channel)
                &&& final(shared).tx.used_view() == old(shared).tx.used_view().push(
                    Descriptor::new_spec(self.desc.encoded_addr),
                )
                &&& final(shared).tx.free_view() == old(shared).tx.free_view()
                &&& final(shared).tx.frames() == old(shared).tx.frames().update(self.slot() as int, frame@)
            },
            frame@.len() > MTU ==> {
                &&& r == Err::<Channel, FrameTooLong>(FrameTooLong)
                &&& final(shared).tx.used_view() == old(shared).tx.used_view()
                &&& final(shared).tx.free_view() == old(shared).tx.free_view().push(
                    Descriptor::new_spec(self.desc.encoded_addr),
                )
                &&& final(shared).tx.frames() == old(shared).tx.frames().update(
                    self.slot() as int,
                    Seq::<u8>::empty(),
                )
            },
    {
        if frame.len() > MTU {
            self.abandon(shared);
            return Err(FrameTooLong);
        }
        let slot = self.desc.encoded_addr;
        shared.tx.write_frame(slot, frame);
        shared.tx.release_used(slot);
        Ok(self.channel)
    }

    /// Gives the token up unused: its buffer is emptied and its descriptor goes
    /// straight back to the TX free ring, with no notification.
    pub fn abandon(self, shared: &mut SharedRegion)
        requires
            old(shared).wf(),
            old(shared).tx.lent().contains(self.slot()),
        ensures
            final(shared).wf(),
            final(shared).rx == old(shared).rx,
            final(shared).tx.lent() == old(shared).tx.lent().remove(self.slot()),
            final(shared).tx.used_view() == old(shared).tx.used_view(),
            final(shared).tx.free_view() == old(shared).tx.free_view().push(
                Descriptor::new_spec(self.desc.encoded_addr),
            ),
            final(shared).tx.frames() == old(shared).tx.frames().update(
                self.slot() as int,
                Seq::<u8>::empty(),
            ),
    {
        let slot = self.desc.encoded_addr;
        shared.tx.clear_frame(slot);
        shared.tx.release_free(slot);
    }
}

/// A received frame, copied out of shared memory.
pub struct RxToken {
    buf: Buf,
}

impl RxToken {
    pub closed spec fn view(&self) -> Seq<u8> {
        frame_bytes(self.buf)
    }

    /// Hands over the received bytes.
    pub fn consume(self) -> (r: Buf)
        ensures
            frame_bytes(r) == self@,
    {
        self.buf
    }
}

/// Client-side end of a transport: the transmit/receive interface that a
/// network stack drives.
pub struct EthDevice {
    pub channel: Channel,
}

impl EthDevice {
    pub fn new(channel: Channel) -> (r: EthDevice)
        ensures
            r.channel == channel,
    {
        EthDevice { channel }
    }

    /// Claims the next free TX buffer, or returns `None` when there is none.
    pub fn transmit(&self, shared: &mut SharedRegion, timestamp: Instant) -> (r: Option<TxToken>)
        requires
            old(shared).wf(),
        ensures
            final(shared).wf(),
            final(shared).rx == old(shared).rx,
            final(shared).tx.used_view() == old(shared).tx.used_view(),
            final(shared).tx.frames() == old(shared).tx.frames(),
            old(shared).tx.free_view().len() == 0 ==> r is None && *final(shared) == *old(shared),
            old(shared).tx.free_view().len() > 0 ==> {
                let d = old(shared).tx.free_view()[0];
                &&& r == Some(TxToken { desc: d, timestamp, channel: self.channel })
                &&& final(shared).tx.free_view() == old(shared).tx.free_view().drop_first()
                &&& final(shared).tx.lent() == old(shared).tx.lent().insert(slot_of(d))
            },
    {
        match shared.tx.claim_free() {
            Some(desc) => Some(TxToken { desc, timestamp, channel: self.channel }),
            None => None,
        }
    }

    /// Takes the oldest received frame together with a TX token for a reply.
    ///
    /// Returns `None`, touching nothing, when the TX free ring or the RX used
    /// ring is empty. Otherwise the frame is copied into the RX token and its
    /// RX slot goes straight back to the RX free ring.
    pub fn receive(&self, shared: &mut SharedRegion, timestamp: Instant) -> (r: Option<(RxToken, TxToken)>)
        requires
            old(shared).wf(),
        ensures
            final(shared).wf(),
            final(shared).tx.used_view() == old(shared).tx.used_view(),
            final(shared).tx.frames() == old(shared).tx.frames(),
            final(shared).rx.frames() == old(shared).rx.frames(),
            final(shared).rx.lent() == old(shared).rx.lent(),
            old(shared).tx.free_view().len() == 0 || old(shared).rx.used_view().len() == 0 ==> r is None
                && *final(shared) == *old(shared),
            old(shared).tx.free_view().len() > 0 && old(shared).rx.used_view().len() > 0 ==> {
                let d = old(shared).tx.free_view()[0];
                let e = old(shared).rx.used_view()[0];
                &&& r is Some
                &&& r->Some_0.0@ == old(shared).rx.frames()[slot_of(e) as int]
                &&& r->Some_0.1 == (TxToken { desc: d, timestamp, channel: self.channel })
                &&& final(shared).tx.free_view() == old(shared).tx.free_view().drop_first()
                &&& final(shared).tx.lent() == old(shared).tx.lent().insert(slot_of(d))
                &&& final(shared).rx.used_view() == old(shared).rx.used_view().drop_first()
                &&& final(shared).rx.free_view() == old(shared).rx.free_view().push(
                    Descriptor::new_spec(e.encoded_addr),
                )
            },
    {
        if shared.tx.free_len() == 0 {
            return None;
        }
        let ghost o = *shared;
        let rx_desc = match shared.rx.claim_used() {
            Some(d) => d,
            None => {
                return None;
            },
        };
        let tx_desc = shared.tx.claim_free().unwrap();
        let rx_slot = rx_desc.encoded_addr;
        let buf = shared.rx.copy_frame(rx_slot);
        shared.rx.release_free(rx_slot);
        assert(shared.rx.lent() =~= o.rx.lent());
        Some((RxToken { buf }, TxToken { desc: tx_desc, timestamp, channel: self.channel }))
    }

    pub fn capabilities(&self) -> (r: DeviceCaps)
        ensures
            r == ethernet_caps_spec(),
    {
        ethernet_caps()
    }
}

} // verus!
