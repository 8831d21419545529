//! One cycle of the receive loop, from the received bytes to a report.
//!
//! The caller owns the socket: it receives a datagram into its buffer, hands
//! the buffer and the received length here, logs the report, and goes back
//! to receiving whatever the report says.
use vstd::prelude::*;
use vstd::slice::slice_subrange;
use crate::packet::{NTPPacket, spec_decode};
use crate::validate::{Validation, spec_advisories, spec_verdict};
use crate::wire::DecodeError;

verus! {

/// What became of one datagram.
#[derive(Debug, PartialEq, Eq)]
pub enum Outcome {
    /// It decoded; `residual` counts bytes the decoder left over, an anomaly
    /// to report but no error.
    Processed { packet: NTPPacket, validation: Validation, residual: usize },
    /// It could not be decoded; the loop goes on with the next datagram.
    Undecodable(DecodeError),
}

#[derive(Debug, PartialEq, Eq)]
pub struct Report {
    /// The receive call reported more bytes than the buffer holds: the
    /// datagram was cut to the buffer's size.
    pub oversized: bool,
    pub outcome: Outcome,
}

/// The number of bytes of a buffer of `cap` bytes that hold the datagram.
pub open spec fn valid_len(received: int, cap: int) -> int {
    if received <= cap {
        received
    } else {
        cap
    }
}

/// Decodes and validates the datagram held in the first `received` bytes of
/// `buf`; bytes beyond them are stale and never read.
pub fn process_datagram(buf: &[u8], received: usize) -> (r: Report)
    ensures
        r.oversized == (received > buf@.len()),
        ({
            let data = buf@.subrange(0, valid_len(received as int, buf@.len() as int));
            match r.outcome {
                Outcome::Processed { packet, validation, residual } => spec_decode(data) == Ok::<
                    _,
                    DecodeError,
                >(packet@) && residual == 0 && validation.verdict == spec_verdict(packet.mode)
                    && validation.advisories@ == spec_advisories(packet.version, packet.stratum),
                Outcome::Undecodable(e) => spec_decode(data) == Err::<crate::packet::PacketModel, _>(
                    e,
                ),
            }
        }),
{
    let cap = buf.len();
    let oversized = received > cap;
    let n = if oversized {
        cap
    } else {
        received
    };
    let data = slice_subrange(buf, 0, n);
    let outcome = match NTPPacket::decode(data) {
        Ok((packet, residual)) => {
            let validation = packet.validate();
            Outcome::Processed { packet, validation, residual }
        },
        Err(e) => Outcome::Undecodable(e),
    };
    Report { oversized, outcome }
}

} // verus!
