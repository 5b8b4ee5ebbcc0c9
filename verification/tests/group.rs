use edifier::constants::AUDIO_CONNECT_GAP_MS;
use edifier::envelope::{open, seal, unsigned, EnvelopeError};
use edifier::handoff::{Action, HandoffMachine, HandoffProgress, Phase, HANDOFF_DEADLINE_MS};
use edifier::key::{derive_group, sign, verify, GroupId};
use edifier::mac::{MacAddr, MacParseError};
use edifier::message::{
    claim_target, nonce_to_hex, parse_headphone, parse_nonce, Envelope, GroupMessage, Nonce, PeerInfo,
};

fn mac() -> MacAddr {
    MacAddr::parse("11:22:33:44:55:66").unwrap()
}

fn nonce() -> Nonce {
    [7u8; 16]
}

fn nonce_hex() -> String {
    nonce_to_hex(nonce())
}

fn json_str(s: &str) -> String {
    let mut out = String::from("\"");
    for c in s.chars() {
        match c {
            '"' => out.push_str("\\\""),
            '\\' => out.push_str("\\\\"),
            _ => out.push(c),
        }
    }
    out.push('"');
    out
}

fn body_json(m: &GroupMessage) -> String {
    match m {
        GroupMessage::Announce { peer } => format!(
            "{{\"type\":\"announce\",\"peer\":{{\"id\":{},\"hostname\":{},\"os\":{},\"can_audio\":{},\"holding\":{},\"app_version\":{}}}}}",
            json_str(&peer.id),
            json_str(&peer.hostname),
            json_str(&peer.os),
            peer.can_audio,
            peer.holding.as_deref().map(json_str).unwrap_or_else(|| "null".to_string()),
            json_str(&peer.app_version)
        ),
        GroupMessage::HandoffRequest { headphone, nonce, deadline_ms } => format!(
            "{{\"type\":\"handoff_request\",\"headphone\":{},\"nonce\":{},\"deadline_ms\":{}}}",
            json_str(headphone),
            json_str(nonce),
            deadline_ms
        ),
        GroupMessage::HandoffHasAudio { nonce } => format!("{{\"type\":\"handoff_has_audio\",\"nonce\":{}}}", json_str(nonce)),
        GroupMessage::HandoffNoAudio { nonce } => format!("{{\"type\":\"handoff_no_audio\",\"nonce\":{}}}", json_str(nonce)),
        GroupMessage::HandoffReleased { nonce } => format!("{{\"type\":\"handoff_released\",\"nonce\":{}}}", json_str(nonce)),
        GroupMessage::HandoffTaken { nonce } => format!("{{\"type\":\"handoff_taken\",\"nonce\":{}}}", json_str(nonce)),
        GroupMessage::HandoffAbort { nonce, reason } => format!(
            "{{\"type\":\"handoff_abort\",\"nonce\":{},\"reason\":{}}}",
            json_str(nonce),
            json_str(reason)
        ),
        GroupMessage::HandoffBusy { nonce } => format!("{{\"type\":\"handoff_busy\",\"nonce\":{}}}", json_str(nonce)),
    }
}

/// The JSON of an envelope with an empty `mac`, in field order.
fn canonical(env: &Envelope) -> Vec<u8> {
    format!(
        "{{\"version\":{},\"group_id\":{},\"ts_ms\":{},\"body\":{},\"mac\":\"\"}}",
        env.version,
        json_str(&env.group_id),
        env.ts_ms,
        body_json(&env.body)
    )
    .into_bytes()
}

fn seal_msg(key: &edifier::key::GroupKey, gid: GroupId, ts: u64, body: GroupMessage) -> Envelope {
    let bytes = canonical(&unsigned(gid, ts, body.clone()));
    seal(key, gid, ts, body, &bytes)
}

fn open_env(key: &edifier::key::GroupKey, gid: GroupId, now: u64, env: &Envelope) -> Result<GroupMessage, EnvelopeError> {
    open(key, gid, now, env, &canonical(env))
}

#[test]
fn seal_open_roundtrip() {
    let (gid, key) = derive_group("lan");
    let body = GroupMessage::Announce {
        peer: PeerInfo {
            id: "a".into(),
            hostname: "pc".into(),
            os: "windows".into(),
            can_audio: true,
            holding: None,
            app_version: "0.1.0".into(),
        },
    };
    let env = seal_msg(&key, gid, 1000, body.clone());
    assert_eq!(open_env(&key, gid, 1000, &env).unwrap(), body);
}

#[test]
fn reject_wrong_group() {
    let (gid, key) = derive_group("lan");
    let (other, _) = derive_group("nope");
    let env = seal_msg(&key, gid, 1000, GroupMessage::HandoffBusy { nonce: "00".repeat(16) });
    assert_eq!(open_env(&key, other, 1000, &env), Err(EnvelopeError::GroupId));
}

#[test]
fn same_passphrase_same_id() {
    let (a, _) = derive_group("demo");
    let (b, _) = derive_group("demo");
    assert_eq!(a, b);
    let (c, _) = derive_group("other");
    assert_ne!(a, c);
}

#[test]
fn hmac_roundtrip() {
    let (_, key) = derive_group("demo");
    let mac = sign(&key, b"hello");
    assert!(verify(&key, b"hello", &mac));
    assert!(!verify(&key, b"hallo", &mac));
}

#[test]
fn happy_path_holder_releases() {
    let mut requester = HandoffMachine::new("b");
    let mut holder = HandoffMachine::new("a");
    holder.has_audio = true;

    let req_actions = requester.claim(mac(), nonce(), 0);
    let request = req_actions
        .iter()
        .find_map(|a| match a {
            Action::Send(m) => Some(m.clone()),
            _ => None,
        })
        .unwrap();

    let holder_actions = holder.on_message(&request, 10);
    assert!(holder_actions.iter().any(|a| matches!(a, Action::DisconnectAudio(_))));
    assert!(matches!(holder.phase(), Phase::Releasing { .. }));

    let released = holder
        .on_audio_disconnected()
        .into_iter()
        .find_map(|a| match a {
            Action::Send(m) => Some(m),
            _ => None,
        })
        .unwrap();

    let take = requester.on_message(&released, 20);
    assert!(take.iter().any(|a| matches!(a, Action::ConnectAudio(_))));

    let done = requester.on_audio_connected();
    assert!(done.iter().any(|a| matches!(a, Action::Report(HandoffProgress::Done))));
    assert!(requester.has_audio);

    let holder_done = holder.on_message(&GroupMessage::HandoffTaken { nonce: nonce_hex() }, 30);
    assert!(holder_done.iter().any(|a| matches!(a, Action::Report(HandoffProgress::Done))));
    assert!(!holder.has_audio);
    assert_eq!(holder.phase(), Phase::Idle);
}

#[test]
fn busy_when_holder_not_idle() {
    let mut holder = HandoffMachine::new("a");
    holder.has_audio = true;
    holder.claim(mac(), nonce(), 0);
    let msg = GroupMessage::HandoffRequest {
        headphone: mac().to_colon_string(),
        nonce: hex::encode([8u8; 16]),
        deadline_ms: 2000,
    };
    let actions = holder.on_message(&msg, 1);
    assert!(actions.iter().any(|a| matches!(a, Action::Send(GroupMessage::HandoffBusy { .. }))));
}

#[test]
fn timeout_without_control_fails() {
    let mut requester = HandoffMachine::new("b");
    requester.claim(mac(), nonce(), 0);
    let actions = requester.tick(HANDOFF_DEADLINE_MS);
    assert!(actions.iter().any(|a| matches!(a, Action::Report(HandoffProgress::Failed(_)))));
    assert_eq!(requester.phase(), Phase::Idle);
}

#[test]
fn timeout_with_ble_sends_cd() {
    let mut requester = HandoffMachine::new("b");
    requester.can_control_headset = true;
    requester.claim(mac(), nonce(), 0);
    let actions = requester.tick(HANDOFF_DEADLINE_MS);
    assert!(actions.iter().any(|a| matches!(a, Action::SendHeadsetDisconnect)));
    assert!(matches!(requester.phase(), Phase::WaitingFallbackGap { .. }));
    let later = requester.tick(HANDOFF_DEADLINE_MS + AUDIO_CONNECT_GAP_MS);
    assert!(later.iter().any(|a| matches!(a, Action::ConnectAudio(_))));
}

#[test]
fn no_audio_connects_directly() {
    let mut requester = HandoffMachine::new("b");
    requester.claim(mac(), nonce(), 0);
    let actions = requester.on_message(&GroupMessage::HandoffNoAudio { nonce: nonce_hex() }, 5);
    assert!(actions.iter().any(|a| matches!(a, Action::ConnectAudio(_))));
}

// Checks of the library's own.

#[test]
fn open_rejects_version_time_and_mac() {
    let (gid, key) = derive_group("lan");
    let env = seal_msg(&key, gid, 1000, GroupMessage::HandoffBusy { nonce: "aa".into() });
    let mut old = env.clone();
    old.version = 2;
    assert_eq!(open_env(&key, gid, 1000, &old), Err(EnvelopeError::Version));
    assert_eq!(open_env(&key, gid, 31_001, &env), Err(EnvelopeError::Timestamp));
    assert_eq!(open_env(&key, gid, 31_000, &env), Ok(GroupMessage::HandoffBusy { nonce: "aa".into() }));
    let mut forged = env.clone();
    forged.body = GroupMessage::HandoffBusy { nonce: "bb".into() };
    assert_eq!(open_env(&key, gid, 1000, &forged), Err(EnvelopeError::Mac));
    let mut short = env.clone();
    short.mac = "abcd".into();
    assert_eq!(open_env(&key, gid, 1000, &short), Err(EnvelopeError::Mac));
    let mut garbage = env.clone();
    garbage.mac = "zz".into();
    assert_eq!(open_env(&key, gid, 1000, &garbage), Err(EnvelopeError::Mac));
    let (_, other_key) = derive_group("nope");
    assert_eq!(open_env(&other_key, gid, 1000, &env), Err(EnvelopeError::Mac));
}

#[test]
fn seal_writes_group_hex_and_lower_case_mac() {
    let (gid, key) = derive_group("lan");
    let env = seal_msg(&key, gid, 5, GroupMessage::HandoffTaken { nonce: "00".into() });
    assert_eq!(env.group_id, gid.to_hex());
    assert_eq!(env.group_id.len(), 32);
    assert_eq!(env.mac.len(), 64);
    assert!(env.mac.chars().all(|c| c.is_ascii_digit() || ('a'..='f').contains(&c)));
    assert_eq!(env.mac, hex::encode(sign(&key, &canonical(&unsigned(gid, 5, env.body.clone())))));
}

#[test]
fn mac_parse_and_format() {
    assert_eq!(MacAddr::parse("aa-bb-cc-dd-ee-ff").unwrap().to_colon_string(), "AA:BB:CC:DD:EE:FF");
    assert_eq!(MacAddr::parse("aabbccddeeff").unwrap().0, [0xAA, 0xBB, 0xCC, 0xDD, 0xEE, 0xFF]);
    assert_eq!(MacAddr::parse("not-a-mac"), Err(MacParseError::Invalid));
    assert_eq!(MacAddr::parse("11:22:33:44:55"), Err(MacParseError::Invalid));
    assert_eq!(MacParseError::Invalid.message(), "MAC 地址格式无效");
    assert!(parse_headphone("11 22 33 44 55 66").is_some());
}

#[test]
fn nonce_roundtrip_example() {
    let n: Nonce = [0x01, 0x23, 0x45, 0x67, 0x89, 0xAB, 0xCD, 0xEF, 0, 1, 2, 3, 4, 5, 6, 0xFF];
    let h = nonce_to_hex(n);
    assert_eq!(h, "0123456789abcdef00010203040506ff");
    assert_eq!(parse_nonce(&h), Some(n));
    assert_eq!(parse_nonce("00"), None);
    assert_eq!(parse_nonce("xyz"), None);
}

#[test]
fn foreign_reply_ignored() {
    let mut requester = HandoffMachine::new("b");
    requester.claim(mac(), nonce(), 0);
    let actions = requester.on_message(&GroupMessage::HandoffNoAudio { nonce: hex::encode([9u8; 16]) }, 5);
    assert!(actions.is_empty());
    assert!(matches!(requester.phase(), Phase::WaitingRelease { .. }));
}

#[test]
fn tick_before_deadline_does_nothing() {
    let mut requester = HandoffMachine::new("b");
    requester.claim(mac(), nonce(), 0);
    assert!(requester.tick(HANDOFF_DEADLINE_MS - 1).is_empty());
    assert!(matches!(requester.phase(), Phase::WaitingRelease { .. }));
}

#[test]
fn claim_while_busy_reports_busy() {
    let mut requester = HandoffMachine::new("b");
    requester.claim(mac(), nonce(), 0);
    let again = requester.claim(mac(), [1u8; 16], 1);
    assert_eq!(again, vec![Action::Report(HandoffProgress::Busy)]);
}

#[test]
fn audio_failure_reports_reason() {
    let mut requester = HandoffMachine::new("b");
    requester.claim(mac(), nonce(), 0);
    requester.on_message(&GroupMessage::HandoffNoAudio { nonce: nonce_hex() }, 5);
    let actions = requester.on_audio_failed("boom");
    assert!(actions.iter().any(|a| *a == Action::Report(HandoffProgress::Failed("boom".into()))));
    assert_eq!(requester.phase(), Phase::Idle);
}

#[test]
fn claim_target_finds_holder() {
    let peers = vec![
        PeerInfo {
            id: "a-1".into(),
            hostname: "alpha".into(),
            os: "linux".into(),
            can_audio: true,
            holding: Some("11:22:33:44:55:66".into()),
            app_version: "0.1.0".into(),
        },
        PeerInfo {
            id: "b-2".into(),
            hostname: "beta".into(),
            os: "windows".into(),
            can_audio: true,
            holding: None,
            app_version: "0.1.0".into(),
        },
    ];
    assert_eq!(claim_target(&peers, "alpha"), Ok("11:22:33:44:55:66".to_string()));
    assert_eq!(claim_target(&peers, "a-1"), Ok("11:22:33:44:55:66".to_string()));
    assert_eq!(claim_target(&peers, "b-2"), Err("该成员没有持有耳机".to_string()));
    assert_eq!(claim_target(&peers, "ghost"), Err("组里没有这个成员".to_string()));
}

#[test]
fn group_id_and_tag_known_values() {
    let (gid, key) = derive_group("demo");
    assert_eq!(gid.to_hex(), "a817c423fba16cc4eeb3b69e5504a403");
    assert_eq!(hex::encode(sign(&key, b"hello")), "61634c35318e391721670c17423d96ba6b83e4629f43cfe3791f45d14031d918");
}

#[test]
fn group_id_is_digest_prefix() {
    let mut digest = [0u8; 32];
    for (i, b) in digest.iter_mut().enumerate() {
        *b = i as u8;
    }
    assert_eq!(GroupId::from_digest(&digest).0, [0, 1, 2, 3, 4, 5, 6, 7, 8, 9, 10, 11, 12, 13, 14, 15]);
}

#[test]
fn handoff_setters() {
    let mut m = HandoffMachine::new("a");
    m.set_has_audio(true);
    m.set_can_control_headset(true);
    assert!(m.has_audio && m.can_control_headset);
    assert!(m.has_audio() && m.can_control_headset());
    assert_eq!(m.local_id(), "a");
    assert_eq!(m.phase(), Phase::Idle);
}
