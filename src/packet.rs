//! NTP packets: the decoded structure and the decoder from untrusted bytes.
use vstd::prelude::*;
use crate::timestamp::{NTPTimestamp, spec_decode_timestamp};
use crate::wire::{DecodeError, be16, be32, copy_range, read_be16, read_be32};

verus! {

/// Length of the fixed header, in bytes.
pub const HEADER_LEN: usize = 48;

/// Length of an authentication trailer: key id and digest.
pub const MAC_LEN: usize = 20;

/// Length of an extension field's type and length words.
pub const EXT_HEADER_LEN: usize = 4;

/// The smallest value an extension field's length word may hold.
pub const EXT_MIN_LEN: u16 = 4;

/// Length of an authentication digest.
pub const DIGEST_LEN: usize = 16;

/// Association modes, the low three bits of a packet's first byte.
#[derive(Debug, Clone, Copy, PartialEq, Eq, Structural)]
pub enum NTPMode {
    Reserved,
    SymmetricActive,
    SymmetricPassive,
    Client,
    Server,
    Broadcast,
    NTPControl,
    ReservedPrivate,
}

/// The mode that the 3-bit code `m` stands for.
pub open spec fn mode_of(m: u8) -> NTPMode {
    if m == 0 {
        NTPMode::Reserved
    } else if m == 1 {
        NTPMode::SymmetricActive
    } else if m == 2 {
        NTPMode::SymmetricPassive
    } else if m == 3 {
        NTPMode::Client
    } else if m == 4 {
        NTPMode::Server
    } else if m == 5 {
        NTPMode::Broadcast
    } else if m == 6 {
        NTPMode::NTPControl
    } else {
        NTPMode::ReservedPrivate
    }
}

impl NTPMode {
    /// The mode for a 3-bit mode code.
    pub fn new(mode: u8) -> (r: NTPMode)
        requires
            mode < 8,
        ensures
            r == mode_of(mode),
    {
        match mode {
            0 => NTPMode::Reserved,
            1 => NTPMode::SymmetricActive,
            2 => NTPMode::SymmetricPassive,
            3 => NTPMode::Client,
            4 => NTPMode::Server,
            5 => NTPMode::Broadcast,
            6 => NTPMode::NTPControl,
            _ => NTPMode::ReservedPrivate,
        }
    }
}

/// An extension field as a value: type, declared length, and its value bytes.
pub ghost struct ExtModel {
    pub field_type: u16,
    pub length: u16,
    pub value: Seq<u8>,
}

/// An authentication trailer as a value.
pub ghost struct MacModel {
    pub keyid: u32,
    pub digest: Seq<u8>,
}

/// A decoded packet as a value.
pub ghost struct PacketModel {
    pub leap: u8,
    pub version: u8,
    pub mode: NTPMode,
    pub stratum: u8,
    pub poll: u8,
    pub precision: i8,
    pub rootdelay: i32,
    pub rootdisp: u32,
    pub refid: u32,
    pub reference_timestamp: NTPTimestamp,
    pub org: NTPTimestamp,
    pub rec: NTPTimestamp,
    pub xmt: NTPTimestamp,
    pub ext1: Option<ExtModel>,
    pub ext2: Option<ExtModel>,
    pub mac: Option<MacModel>,
}

/// An extension field of a packet.
#[derive(Debug, PartialEq, Eq)]
pub struct NTPExt {
    pub field_type: u16,
    /// The declared length; `value` holds that many bytes.
    pub length: u16,
    pub value: Vec<u8>,
}

impl View for NTPExt {
    type V = ExtModel;

    open spec fn view(&self) -> ExtModel {
        ExtModel { field_type: self.field_type, length: self.length, value: self.value@ }
    }
}

/// The authentication trailer of a packet.
#[derive(Debug, PartialEq, Eq)]
pub struct NTPMAC {
    /// Identifier of the key the digest was made with.
    pub keyid: u32,
    /// The 16-byte digest, not interpreted here.
    pub digest: Vec<u8>,
}

impl View for NTPMAC {
    type V = MacModel;

    open spec fn view(&self) -> MacModel {
        MacModel { keyid: self.keyid, digest: self.digest@ }
    }
}

/// The value of an optional extension field.
pub open spec fn ext_view(e: Option<NTPExt>) -> Option<ExtModel> {
    match e {
        Some(x) => Some(x@),
        None => None,
    }
}

/// The value of an optional authentication trailer.
pub open spec fn mac_view(m: Option<NTPMAC>) -> Option<MacModel> {
    match m {
        Some(x) => Some(x@),
        None => None,
    }
}

/// A Network Time Protocol packet, decoded from one datagram.
#[derive(Debug, PartialEq, Eq)]
pub struct NTPPacket {
    /// Leap indicator, two bits.
    pub leap: u8,
    /// Protocol version claimed by the sender, three bits.
    pub version: u8,
    pub mode: NTPMode,
    /// 0 unspecified, 1 primary reference, 2 to 15 secondary, 16 and up reserved.
    pub stratum: u8,
    /// Log2 of the largest poll interval, in seconds.
    pub poll: u8,
    /// Log2 of the system clock's precision, in seconds.
    pub precision: i8,
    /// Round-trip delay to the reference, signed 16.16 fixed point seconds.
    pub rootdelay: i32,
    /// Largest error relative to the reference, 16.16 fixed point seconds.
    pub rootdisp: u32,
    /// Reference identifier, kept opaque.
    pub refid: u32,
    pub reference_timestamp: NTPTimestamp,
    pub org: NTPTimestamp,
    pub rec: NTPTimestamp,
    pub xmt: NTPTimestamp,
    pub ext1: Option<NTPExt>,
    pub ext2: Option<NTPExt>,
    pub mac: Option<NTPMAC>,
}

impl View for NTPPacket {
    type V = PacketModel;

    open spec fn view(&self) -> PacketModel {
        PacketModel {
            leap: self.leap,
            version: self.version,
            mode: self.mode,
            stratum: self.stratum,
            poll: self.poll,
            precision: self.precision,
            rootdelay: self.rootdelay,
            rootdisp: self.rootdisp,
            refid: self.refid,
            reference_timestamp: self.reference_timestamp,
            org: self.org,
            rec: self.rec,
            xmt: self.xmt,
            ext1: ext_view(self.ext1),
            ext2: ext_view(self.ext2),
            mac: mac_view(self.mac),
        }
    }
}

/// What follows the fixed header: extension fields in order, then an
/// optional authentication trailer.
pub ghost struct Trailer {
    pub exts: Seq<ExtModel>,
    pub mac: Option<MacModel>,
}

/// The extension field whose header starts at `pos`.
pub open spec fn ext_at(b: Seq<u8>, pos: int) -> ExtModel {
    let len = be16(b, pos + 2);
    ExtModel {
        field_type: be16(b, pos),
        length: len,
        value: b.subrange(pos + 4, pos + 4 + len),
    }
}

/// The trailer starting at `pos`, reading at most `left` extension fields.
/// Exactly 20 remaining bytes are an authentication trailer and none end it;
/// otherwise an extension field is read while any may still come, and its
/// length must be at least 4 and fit in what follows its header.
pub open spec fn spec_trailer(b: Seq<u8>, pos: int, left: nat) -> Result<Trailer, DecodeError>
    decreases left,
{
    let r = b.len() - pos;
    if r == 20 {
        Ok(
            Trailer {
                exts: seq![],
                mac: Some(MacModel { keyid: be32(b, pos), digest: b.subrange(pos + 4, pos + 20) }),
            },
        )
    } else if r == 0 {
        Ok(Trailer { exts: seq![], mac: None })
    } else if left == 0 || r < 4 {
        Err(DecodeError::TrailingGarbage(r as usize))
    } else {
        let len = be16(b, pos + 2);
        if len < 4 || len > r - 4 {
            Err(DecodeError::MalformedExtension)
        } else {
            match spec_trailer(b, pos + 4 + len, (left - 1) as nat) {
                Ok(t) => Ok(Trailer { exts: seq![ext_at(b, pos)] + t.exts, mac: t.mac }),
                Err(e) => Err(e),
            }
        }
    }
}

/// The end of the first fixed-header field that a buffer of `len` bytes
/// cannot hold.
pub open spec fn header_need(len: int) -> usize {
    if len < 12 {
        12
    } else if len < 16 {
        16
    } else if len < 24 {
        24
    } else if len < 32 {
        32
    } else if len < 40 {
        40
    } else {
        48
    }
}

/// The timestamp at `offset` of a buffer known to hold it.
pub open spec fn ts_at(b: Seq<u8>, offset: int) -> NTPTimestamp {
    NTPTimestamp { seconds: be32(b, offset), fraction: be32(b, offset + 4) }
}

/// What a datagram decodes to.
pub open spec fn spec_decode(b: Seq<u8>) -> Result<PacketModel, DecodeError> {
    if b.len() < 48 {
        Err(DecodeError::Truncated { need: header_need(b.len() as int), have: b.len() as usize })
    } else {
        match spec_trailer(b, 48, 2) {
            Err(e) => Err(e),
            Ok(t) => Ok(
                PacketModel {
                    leap: b[0] >> 6u8,
                    version: (b[0] >> 3u8) & 7u8,
                    mode: mode_of(b[0] & 7u8),
                    stratum: b[1],
                    poll: b[2],
                    precision: b[3] as i8,
                    rootdelay: be32(b, 4) as i32,
                    rootdisp: be32(b, 8),
                    refid: be32(b, 12),
                    reference_timestamp: ts_at(b, 16),
                    org: ts_at(b, 24),
                    rec: ts_at(b, 32),
                    xmt: ts_at(b, 40),
                    ext1: if t.exts.len() > 0 {
                        Some(t.exts[0])
                    } else {
                        None
                    },
                    ext2: if t.exts.len() > 1 {
                        Some(t.exts[1])
                    } else {
                        None
                    },
                    mac: t.mac,
                },
            ),
        }
    }
}

/// The values of a sequence of extension fields.
pub open spec fn exts_view(v: Seq<NTPExt>) -> Seq<ExtModel> {
    v.map_values(|e: NTPExt| e@)
}

/// A trailer never holds more extension fields than it was allowed.
proof fn lemma_trailer_len(b: Seq<u8>, pos: int, left: nat)
    requires
        spec_trailer(b, pos, left) is Ok,
    ensures
        spec_trailer(b, pos, left)->Ok_0.exts.len() <= left,
    decreases left,
{
    let r = b.len() - pos;
    if r != 20 && r != 0 && left > 0 && r >= 4 {
        let len = be16(b, pos + 2);
        lemma_trailer_len(b, pos + 4 + len, (left - 1) as nat);
    }
}

/// Decodes what follows the fixed header from `pos` on, reading at most
/// `left` extension fields.
fn decode_trailer(buf: &[u8], pos: usize, left: usize) -> (r: Result<
    (Vec<NTPExt>, Option<NTPMAC>),
    DecodeError,
>)
    requires
        pos <= buf@.len(),
    ensures
        match r {
            Ok((es, m)) => spec_trailer(buf@, pos as int, left as nat) == Ok::<Trailer, DecodeError>(
                Trailer { exts: exts_view(es@), mac: mac_view(m) },
            ),
            Err(e) => spec_trailer(buf@, pos as int, left as nat) == Err::<Trailer, DecodeError>(e),
        },
    decreases left,
{
    let rem = buf.len() - pos;
    if rem == MAC_LEN {
        let keyid = read_be32(buf, pos);
        let digest = copy_range(buf, pos + 4, pos + MAC_LEN);
        let es: Vec<NTPExt> = Vec::new();
        assert(exts_view(es@) =~= seq![]);
        Ok((es, Some(NTPMAC { keyid, digest })))
    } else if rem == 0 {
        let es: Vec<NTPExt> = Vec::new();
        assert(exts_view(es@) =~= seq![]);
        Ok((es, None))
    } else if left == 0 || rem < EXT_HEADER_LEN {
        Err(DecodeError::TrailingGarbage(rem))
    } else {
        let len = read_be16(buf, pos + 2);
        if len < EXT_MIN_LEN || len as usize > rem - EXT_HEADER_LEN {
            Err(DecodeError::MalformedExtension)
        } else {
            let field_type = read_be16(buf, pos);
            let value_end = pos + EXT_HEADER_LEN + len as usize;
            let value = copy_range(buf, pos + EXT_HEADER_LEN, value_end);
            let ext = NTPExt { field_type, length: len, value };
            match decode_trailer(buf, value_end, left - 1) {
                Ok((es, m)) => {
                    let ghost tail = es@;
                    let mut es = es;
                    es.insert(0, ext);
                    assert(exts_view(es@) =~= seq![ext_at(buf@, pos as int)] + exts_view(tail));
                    Ok((es, m))
                },
                Err(e) => Err(e),
            }
        }
    }
}

/// The `need` of a buffer of `len` bytes too short for the fixed header.
fn header_shortfall(len: usize) -> (r: usize)
    ensures
        r == header_need(len as int),
{
    if len < 12 {
        12
    } else if len < 16 {
        16
    } else if len < 24 {
        24
    } else if len < 32 {
        32
    } else if len < 40 {
        40
    } else {
        48
    }
}

impl NTPPacket {
    /// Decodes one datagram. On success returns the packet and the count of
    /// bytes left unconsumed, which the layout rules make zero; otherwise the
    /// first rule the buffer breaks. Never panics, whatever the bytes.
    pub fn decode(buf: &[u8]) -> (r: Result<(NTPPacket, usize), DecodeError>)
        ensures
            match r {
                Ok((p, rest)) => spec_decode(buf@) == Ok::<PacketModel, DecodeError>(p@) && rest
                    == 0,
                Err(e) => spec_decode(buf@) == Err::<PacketModel, DecodeError>(e),
            },
            buf@.len() < HEADER_LEN ==> r matches Err(DecodeError::Truncated { .. }),
    {
        let len = buf.len();
        if len < HEADER_LEN {
            return Err(DecodeError::Truncated { need: header_shortfall(len), have: len });
        }
        let b0 = buf[0];
        let mode_bits = b0 & 7u8;
        assert(mode_bits < 8) by (bit_vector)
            requires
                mode_bits == b0 & 7u8,
        ;
        let mode = NTPMode::new(mode_bits);
        let stamps = (
            NTPTimestamp::decode(buf, 16),
            NTPTimestamp::decode(buf, 24),
            NTPTimestamp::decode(buf, 32),
            NTPTimestamp::decode(buf, 40),
        );
        let (reference_timestamp, org, rec, xmt) = match stamps {
            (Ok((a, _)), Ok((b, _)), Ok((c, _)), Ok((d, _))) => (a, b, c, d),
            (Err(e), _, _, _) | (_, Err(e), _, _) | (_, _, Err(e), _) | (_, _, _, Err(e)) => {
                return Err(e);
            },
        };
        let (mut exts, mac) = match decode_trailer(buf, HEADER_LEN, 2) {
            Ok(t) => t,
            Err(e) => return Err(e),
        };
        proof {
            lemma_trailer_len(buf@, 48, 2);
        }
        let ghost all = exts@;
        let ext2 = if exts.len() > 1 {
            exts.pop()
        } else {
            None
        };
        let ext1 = if exts.len() > 0 {
            exts.pop()
        } else {
            None
        };
        let p = NTPPacket {
            leap: b0 >> 6u8,
            version: (b0 >> 3u8) & 7u8,
            mode,
            stratum: buf[1],
            poll: buf[2],
            precision: buf[3] as i8,
            rootdelay: read_be32(buf, 4) as i32,
            rootdisp: read_be32(buf, 8),
            refid: read_be32(buf, 12),
            reference_timestamp,
            org,
            rec,
            xmt,
            ext1,
            ext2,
            mac,
        };
        proof {
            let t = spec_trailer(buf@, 48, 2)->Ok_0;
            assert(t.exts == exts_view(all));
            assert(p@ == spec_decode(buf@)->Ok_0);
        }
        Ok((p, 0))
    }
}

/// A datagram of 52 bytes whose first extension field declares a length
/// above 2 (so more than the nothing that follows its header) is refused as
/// a malformed extension.
pub proof fn lemma_overlong_extension_rejected(b: Seq<u8>)
    requires
        b.len() == 52,
        be16(b, 50) > 2,
    ensures
        spec_decode(b) == Err::<PacketModel, DecodeError>(DecodeError::MalformedExtension),
{
}

/// The 20 bytes after a fixed header, with nothing else, are read as an
/// authentication trailer: key id, then digest, and no extension field.
pub proof fn lemma_trailer_after_header_is_mac(b: Seq<u8>)
    requires
        b.len() == 68,
    ensures
        spec_decode(b) is Ok,
        spec_decode(b)->Ok_0.ext1 is None,
        spec_decode(b)->Ok_0.ext2 is None,
        spec_decode(b)->Ok_0.mac == Some(MacModel { keyid: be32(b, 48), digest: b.subrange(52, 68) }),
{
}

} // verus!
