use ntpd_core::config::{Daemon, Network, Principal};
use ntpd_core::packet::{NTPMode, NTPPacket};
use ntpd_core::receive::{process_datagram, Outcome};
use ntpd_core::validate::{Advisory, RejectReason, Verdict};
use ntpd_core::wire::DecodeError;
use ntpd_core::{MAX_PACKET_LENGTH, PORT};

fn header(version: u8, mode: u8, stratum: u8) -> Vec<u8> {
    let mut b = vec![0u8; 48];
    b[0] = (version << 3) | mode;
    b[1] = stratum;
    b
}

#[test]
fn server_mode_is_rejected() {
    let (p, _) = NTPPacket::decode(&header(4, 4, 2)).unwrap();
    let v = p.validate();
    assert_eq!(v.verdict, Verdict::Rejected(RejectReason::UnsupportedMode(NTPMode::Server)));
    assert!(v.advisories.is_empty());
}

#[test]
fn old_version_client_is_accepted_with_advisory() {
    let (p, _) = NTPPacket::decode(&header(3, 3, 0)).unwrap();
    let v = p.validate();
    assert_eq!(v.verdict, Verdict::Accepted);
    assert_eq!(v.advisories, vec![Advisory::VersionMismatch { version: 3 }]);
}

#[test]
fn high_stratum_is_advised_even_when_rejected() {
    let (p, _) = NTPPacket::decode(&header(2, 1, 17)).unwrap();
    let v = p.validate();
    assert_eq!(
        v.verdict,
        Verdict::Rejected(RejectReason::UnsupportedMode(NTPMode::SymmetricActive))
    );
    assert_eq!(
        v.advisories,
        vec![
            Advisory::VersionMismatch { version: 2 },
            Advisory::StratumTooHigh { stratum: 17 }
        ]
    );
}

#[test]
fn stratum_sixteen_is_not_advised() {
    let (p, _) = NTPPacket::decode(&header(4, 3, 16)).unwrap();
    let v = p.validate();
    assert_eq!(v.verdict, Verdict::Accepted);
    assert!(v.advisories.is_empty());
}

#[test]
fn loop_goes_on_after_a_truncated_datagram() {
    let datagrams = [header(4, 3, 1), header(4, 3, 1)[..30].to_vec(), header(4, 3, 2)];
    let mut buf = [0u8; MAX_PACKET_LENGTH];
    let mut failures = Vec::new();
    let mut accepted = 0;
    for (i, d) in datagrams.iter().enumerate() {
        buf[..d.len()].copy_from_slice(d);
        let report = process_datagram(&buf, d.len());
        assert!(!report.oversized);
        match report.outcome {
            Outcome::Processed { validation, residual, .. } => {
                assert_eq!(residual, 0);
                if validation.verdict == Verdict::Accepted {
                    accepted += 1;
                }
            }
            Outcome::Undecodable(e) => failures.push((i, e)),
        }
    }
    assert_eq!(accepted, 2);
    assert_eq!(failures, vec![(1, DecodeError::Truncated { need: 32, have: 30 })]);
}

#[test]
fn stale_bytes_past_the_datagram_are_ignored() {
    let mut buf = [0xFFu8; MAX_PACKET_LENGTH];
    buf[..48].copy_from_slice(&header(4, 3, 1));
    let report = process_datagram(&buf, 48);
    match report.outcome {
        Outcome::Processed { packet, .. } => assert!(packet.ext1.is_none() && packet.mac.is_none()),
        other => panic!("unexpected {:?}", other),
    }
}

#[test]
fn oversized_receive_is_flagged() {
    let mut buf = vec![0u8; 68];
    buf[..48].copy_from_slice(&header(4, 3, 1));
    let report = process_datagram(&buf, 500);
    assert!(report.oversized);
    match report.outcome {
        Outcome::Processed { packet, .. } => assert!(packet.mac.is_some()),
        other => panic!("unexpected {:?}", other),
    }
}

#[test]
fn default_port_is_used_when_unset() {
    let mut n = Network { ip: "0.0.0.0".to_string(), ip6: "::".to_string(), port: None };
    assert_eq!(n.port_or_default(), PORT);
    assert_eq!(PORT, 123);
    n.port = Some(1123);
    assert_eq!(n.port_or_default(), 1123);
}

fn daemon(user: Option<&str>, user_id: Option<u32>) -> Daemon {
    Daemon {
        pid_file: None,
        working_directory: None,
        user: user.map(|s| s.to_string()),
        user_id,
        group: Some("ntp".to_string()),
        group_id: Some(5),
        umask: None,
    }
}

#[test]
fn privilege_drop_targets() {
    assert_eq!(daemon(Some("ntpd"), Some(7)).user_target(), Principal::Name("ntpd".to_string()));
    assert_eq!(daemon(None, Some(7)).user_target(), Principal::Id(7));
    assert_eq!(daemon(None, None).user_target(), Principal::Name("nobody".to_string()));
    assert_eq!(daemon(None, None).group_target(), Principal::Name("ntp".to_string()));
    let mut d = daemon(None, None);
    d.group = None;
    assert_eq!(d.group_target(), Principal::Id(5));
    d.group_id = None;
    assert_eq!(d.group_target(), Principal::Name("nobody".to_string()));
}
