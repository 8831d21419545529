//! The 64-bit fixed-point NTP timestamp and its wire codec.
use vstd::prelude::*;
use crate::wire::{DecodeError, be32, be32_bytes, lemma_be32_of_bytes, read_be32};

verus! {

/// Size of a timestamp on the wire, in bytes.
pub const TIMESTAMP_LEN: usize = 8;

/// A point in time as whole seconds and a binary fraction of a second
/// (`fraction / 2^32`). Both halves are carried bit for bit.
#[derive(Debug, Clone, Copy, PartialEq, Eq, Structural)]
pub struct NTPTimestamp {
    pub seconds: u32,
    pub fraction: u32,
}

/// The bytes left in `b` from `offset` on (none when `offset` lies past the end).
pub open spec fn remaining(b: Seq<u8>, offset: int) -> int {
    if offset <= b.len() {
        b.len() - offset
    } else {
        0
    }
}

/// The timestamp read at `offset`, with the 8 bytes it takes, or the shortfall.
pub open spec fn spec_decode_timestamp(b: Seq<u8>, offset: int) -> Result<
    (NTPTimestamp, usize),
    DecodeError,
> {
    if remaining(b, offset) < 8 {
        Err(DecodeError::Truncated { need: 8, have: remaining(b, offset) as usize })
    } else {
        Ok((NTPTimestamp { seconds: be32(b, offset), fraction: be32(b, offset + 4) }, 8))
    }
}

/// The 8 wire bytes of `t`: seconds, then fraction, each big-endian.
pub open spec fn spec_encode_timestamp(t: NTPTimestamp) -> Seq<u8> {
    be32_bytes(t.seconds) + be32_bytes(t.fraction)
}

impl NTPTimestamp {
    pub fn new(seconds: u32, fraction: u32) -> (r: NTPTimestamp)
        ensures
            r.seconds == seconds,
            r.fraction == fraction,
    {
        NTPTimestamp { seconds, fraction }
    }

    /// Reads a timestamp at `offset`: two big-endian 32-bit words, seconds
    /// first. Returns it with the count of bytes consumed, or `Truncated`
    /// (need 8, have what remains) when fewer than 8 bytes remain.
    pub fn decode(buf: &[u8], offset: usize) -> (r: Result<(NTPTimestamp, usize), DecodeError>)
        ensures
            r == spec_decode_timestamp(buf@, offset as int),
    {
        let rem: usize = if offset <= buf.len() {
            buf.len() - offset
        } else {
            0
        };
        if rem < TIMESTAMP_LEN {
            Err(DecodeError::Truncated { need: TIMESTAMP_LEN, have: rem })
        } else {
            let seconds = read_be32(buf, offset);
            let fraction = read_be32(buf, offset + 4);
            Ok((NTPTimestamp { seconds, fraction }, TIMESTAMP_LEN))
        }
    }

    /// The 8 wire bytes of this timestamp.
    pub fn encode(&self) -> (r: Vec<u8>)
        ensures
            r@ == spec_encode_timestamp(*self),
    {
        let s = self.seconds;
        let f = self.fraction;
        let r: Vec<u8> = vec![
            (s >> 24u32) as u8,
            (s >> 16u32) as u8,
            (s >> 8u32) as u8,
            s as u8,
            (f >> 24u32) as u8,
            (f >> 16u32) as u8,
            (f >> 8u32) as u8,
            f as u8,
        ];
        assert(r@ =~= spec_encode_timestamp(*self));
        r
    }
}

/// Decoding the encoding of any timestamp gives it back, consuming all 8 bytes.
pub proof fn lemma_timestamp_round_trip(t: NTPTimestamp)
    ensures
        spec_decode_timestamp(spec_encode_timestamp(t), 0) == Ok::<(NTPTimestamp, usize), DecodeError>((t, 8usize)),
{
    let b = spec_encode_timestamp(t);
    lemma_be32_of_bytes(t.seconds);
    lemma_be32_of_bytes(t.fraction);
    assert(b.subrange(0, 4) =~= be32_bytes(t.seconds));
    assert(b.subrange(4, 8) =~= be32_bytes(t.fraction));
    assert(be32(b, 0) == be32(be32_bytes(t.seconds), 0));
    assert(be32(b, 4) == be32(be32_bytes(t.fraction), 0));
}

} // verus!
