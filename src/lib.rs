//! Wire-format codec and conformance checks for Network Time Protocol datagrams.
//!
//! The library decodes an untrusted datagram into a structured packet (or a
//! precise error), validates the packet against this server's policy, and
//! reports the outcome of one receive cycle. Configuration records that the
//! daemon around it reads are kept here as plain values.
use vstd::prelude::*;

pub mod wire;
pub mod timestamp;
pub mod packet;
pub mod validate;
pub mod receive;
pub mod config;

verus! {

/// The well-known NTP port.
pub const PORT: u16 = 123;

/// The protocol version this server speaks.
pub const VERSION: u8 = 4;

/// The largest valid stratum.
pub const MAXSTRAT: u8 = 16;

/// The largest datagram accepted, in bytes; the receive buffer has this size.
pub const MAX_PACKET_LENGTH: usize = 128;

} // verus!
