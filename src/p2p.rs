use vstd::prelude::*;

use crate::device::{ethernet_caps, ethernet_caps_spec, DeviceCaps, FrameTooLong, Instant};
use crate::frame::{buf_from_bytes, buf_bytes, empty_buf, frame_bytes, Buf, MTU};
use crate::transport::Channel;

verus! {

/// The one shared buffer of a direction of a point-to-point link.
pub struct FrameSlot {
    buf: Buf,
}

impl FrameSlot {
    /// The bytes the slot holds.
    pub closed spec fn view(&self) -> Seq<u8> {
        frame_bytes(self.buf)
    }

    /// An empty slot.
    pub fn new() -> (r: FrameSlot)
        ensures
            r@ == Seq::<u8>::empty(),
    {
        FrameSlot { buf: empty_buf() }
    }

    pub fn bytes(&self) -> (r: &[u8])
        ensures
            r@ == self@,
            r@.len() <= MTU,
    {
        buf_bytes(&self.buf)
    }
}

/// The right to write the outbound slot once.
pub struct TxToken {
    pub channel: Channel,
}

impl TxToken {
    /// Replaces the outbound slot's contents with exactly `frame` and returns
    /// the channel to notify. A frame longer than [`MTU`] is refused and the
    /// slot is left as it was.
    pub fn consume(self, outbound: &mut FrameSlot, frame: &[u8]) -> (r: Result<Channel, FrameTooLong>)
        ensures
            frame@.len() <= MTU ==> r == Ok::<Channel, FrameTooLong>(self.channel) && final(outbound)@ == frame@,
            frame@.len() > MTU ==> r == Err::<Channel, FrameTooLong>(FrameTooLong) && final(outbound)@
                == old(outbound)@,
    {
        if frame.len() > MTU {
            return Err(FrameTooLong);
        }
        outbound.buf = buf_from_bytes(frame);
        Ok(self.channel)
    }
}

/// A copy of the inbound slot taken at `receive`.
pub struct RxToken {
    buf: Buf,
}

impl RxToken {
    pub closed spec fn view(&self) -> Seq<u8> {
        frame_bytes(self.buf)
    }

    /// Hands over the received bytes.
    pub fn consume(self) -> (r: Buf)
        ensures
            frame_bytes(r) == self@,
    {
        self.buf
    }
}

/// A device wired straight to one peer: one shared buffer per direction and a
/// notification, no rings.
pub struct PointToPointPhy {
    pub channel: Channel,
}

impl PointToPointPhy {
    pub fn new(channel: Channel) -> (r: PointToPointPhy)
        ensures
            r.channel == channel,
    {
        PointToPointPhy { channel }
    }

    /// Always grants a token: a point-to-point link has no backpressure.
    pub fn transmit(&self, timestamp: Instant) -> (r: Option<TxToken>)
        ensures
            r == Some(TxToken { channel: self.channel }),
    {
        Some(TxToken { channel: self.channel })
    }

    /// Always succeeds, copying whatever the inbound slot holds now, fresh or
    /// not, together with a token for the outbound slot.
    pub fn receive(&self, inbound: &FrameSlot, timestamp: Instant) -> (r: Option<(RxToken, TxToken)>)
        ensures
            r is Some,
            r->Some_0.0@ == inbound@,
            r->Some_0.1 == (TxToken { channel: self.channel }),
    {
        let buf = buf_from_bytes(inbound.bytes());
        Some((RxToken { buf }, TxToken { channel: self.channel }))
    }

    pub fn capabilities(&self) -> (r: DeviceCaps)
        ensures
            r == ethernet_caps_spec(),
    {
        ethernet_caps()
    }
}

} // verus!
