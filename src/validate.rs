//! Conformance checks on decoded packets.
use vstd::prelude::*;
use crate::packet::{NTPMode, NTPPacket};
use crate::{MAXSTRAT, VERSION};

verus! {

/// A finding that is reported but does not reject the packet.
#[derive(Debug, Clone, Copy, PartialEq, Eq, Structural)]
pub enum Advisory {
    /// The packet claims a protocol version other than the supported one.
    VersionMismatch { version: u8 },
    /// The packet's stratum is above the largest valid stratum.
    StratumTooHigh { stratum: u8 },
}

/// Why a packet is refused.
#[derive(Debug, Clone, Copy, PartialEq, Eq, Structural)]
pub enum RejectReason {
    /// Only client requests are served.
    UnsupportedMode(NTPMode),
}

#[derive(Debug, Clone, Copy, PartialEq, Eq, Structural)]
pub enum Verdict {
    Accepted,
    Rejected(RejectReason),
}

/// The outcome of validating one packet: a verdict, and the advisories found
/// whatever the verdict.
#[derive(Debug, PartialEq, Eq)]
pub struct Validation {
    pub verdict: Verdict,
    pub advisories: Vec<Advisory>,
}

/// The verdict on a packet of mode `mode`.
pub open spec fn spec_verdict(mode: NTPMode) -> Verdict {
    if mode == NTPMode::Client {
        Verdict::Accepted
    } else {
        Verdict::Rejected(RejectReason::UnsupportedMode(mode))
    }
}

/// The advisories on a packet: a version mismatch first, then a stratum
/// above the maximum, each only where it applies.
pub open spec fn spec_advisories(version: u8, stratum: u8) -> Seq<Advisory> {
    (if version != VERSION {
        seq![Advisory::VersionMismatch { version }]
    } else {
        seq![]
    }) + (if stratum > MAXSTRAT {
        seq![Advisory::StratumTooHigh { stratum }]
    } else {
        seq![]
    })
}

impl NTPPacket {
    /// Checks the packet against this server's policy: anything but a client
    /// request is rejected; a foreign version or an out-of-range stratum is
    /// only reported.
    pub fn validate(&self) -> (r: Validation)
        ensures
            r.verdict == spec_verdict(self.mode),
            r.advisories@ == spec_advisories(self.version, self.stratum),
    {
        let mut advisories: Vec<Advisory> = Vec::new();
        if self.version != VERSION {
            advisories.push(Advisory::VersionMismatch { version: self.version });
        }
        if self.stratum > MAXSTRAT {
            advisories.push(Advisory::StratumTooHigh { stratum: self.stratum });
        }
        let verdict = match self.mode {
            NTPMode::Client => Verdict::Accepted,
            _ => Verdict::Rejected(RejectReason::UnsupportedMode(self.mode)),
        };
        assert(advisories@ =~= spec_advisories(self.version, self.stratum));
        Validation { verdict, advisories }
    }
}

/// Every packet not in client mode is rejected for its mode.
pub proof fn lemma_non_client_rejected(mode: NTPMode)
    requires
        mode != NTPMode::Client,
    ensures
        spec_verdict(mode) == Verdict::Rejected(RejectReason::UnsupportedMode(mode)),
{
}

/// A client request with a version other than the supported one is accepted,
/// with a single advisory, the version mismatch, when its stratum is in range.
pub proof fn lemma_version_mismatch_only_advised(version: u8, stratum: u8)
    requires
        version != VERSION,
        stratum <= MAXSTRAT,
    ensures
        spec_verdict(NTPMode::Client) == Verdict::Accepted,
        spec_advisories(version, stratum) =~= seq![Advisory::VersionMismatch { version }],
{
}

} // verus!
