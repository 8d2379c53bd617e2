//! Zero-copy Ethernet transport over shared descriptor rings.
//!
//! A driver-side [`handler::EthHandler`] and a client-side [`device::EthDevice`]
//! hand fixed-size frame buffers back and forth through four single-producer /
//! single-consumer rings (TX free, TX used, RX free, RX used). Buffers are named
//! by slot index, never by address, and each slot is owned by exactly one place
//! at a time. A single-slot [`p2p::PointToPointPhy`] covers the case of two
//! components wired together directly.
//!
//! The timer modules hold the message types of the timer component and the
//! uptime counter of its driver.

pub mod device;
mod frame;
pub mod loopback;
pub mod handler;
pub mod p2p;
mod pool;
mod ring;
pub mod timer;
pub mod timer_interface;
pub mod timer_types;
mod transport;

pub use frame::{frame_bytes, Buf, MTU};
pub use pool::{exclusive, seeded, slot_of, Pool};
pub use ring::{Descriptor, RingBuffer, RingEmpty, RingFull};
pub use transport::{
    lemma_conservation, lemma_slot_exclusive, Channel, SharedRegion, RX_BUF_SIZE, TX_BUF_SIZE,
};
