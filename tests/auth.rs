use nostrgraph_pow_service::config::AppConfig;
use nostrgraph_pow_service::event::{
    first_value_with_folded_key, get_event_first_tag_with_value, signature_well_formed,
    validate_event, Event,
};
use nostrgraph_pow_service::is_within_delta;
use nostrgraph_pow_service::peer::{AuthError, PeerInfo};
use nostrgraph_pow_service::session::{handle_auth, handle_auth_at, notice_frame};

const T: u64 = 1700000000;
const PUBKEY: &str = "5cbdf0646e5db4eaa398f365f2ea7a0e3d419b7e0330e39ce92bddedcac4f9bc";
const RELAY: &str = "ws://127.0.0.1";

fn tags(list: &[&[&str]]) -> Vec<Vec<String>> {
    list.iter().map(|t| t.iter().map(|s| s.to_string()).collect()).collect()
}

fn event(id: &str, kind: u64, t: Vec<Vec<String>>, content: &str, sig: &str) -> Event {
    Event {
        id: id.to_string(),
        pubkey: PUBKEY.to_string(),
        delegated_by: None,
        created_at: T,
        kind,
        tags: t,
        content: content.to_string(),
        sig: sig.to_string(),
    }
}

fn auth_event() -> Event {
    event(
        "b69d230c6e5fdf60bd54494d9958df8c7b6a0de3d7054e6d6f196c39adbc5587",
        22242,
        tags(&[&["relay", RELAY], &["challenge", "test-challenge"]]),
        "",
        "ac2736c1e6f4386bbda995b455052e41d40f82fb1dba9eaa230433f79f901cb9c505b0619ad07dd9b79e5d6eac372978fb8bfdd5d5b962ca495ee5d33b4a6c39",
    )
}

fn peer() -> PeerInfo {
    let mut p = PeerInfo::new(1, None);
    p.auth_challenge = "test-challenge".to_string();
    p
}

fn config() -> AppConfig {
    AppConfig::new(RELAY.to_string(), vec![], 10, 25)
}

#[test]
fn new_peer_is_unauthenticated_with_fresh_challenge() {
    let a = PeerInfo::new(3, Some("10.0.0.1".to_string()));
    let b = PeerInfo::new(4, None);
    assert_eq!(a.id, 3);
    assert_eq!(a.real_ip.as_deref(), Some("10.0.0.1"));
    assert!(!a.auth_confirmed);
    assert!(a.pubkey.is_none());
    assert_eq!(a.auth_challenge.len(), 36);
    assert_ne!(a.auth_challenge, b.auth_challenge);
}

#[test]
fn auth_request_frame_carries_challenge() {
    let p = peer();
    assert_eq!(p.generate_auth_request_cmd(), r#"["AUTH", "test-challenge"]"#);
}

#[test]
fn valid_auth_confirms_session_and_reports_pubkey() {
    let mut p = peer();
    let (outcome, frame) = handle_auth_at(&mut p, &config(), &auth_event(), T);
    assert_eq!(outcome, Ok(()));
    assert!(p.auth_confirmed);
    assert_eq!(p.pubkey.as_deref(), Some(PUBKEY));
    assert_eq!(frame, format!(r#"["NOTICE","Authorised: {}"]"#, PUBKEY));
}

#[test]
fn auth_with_other_challenge_is_rejected() {
    let mut p = peer();
    let e = event(
        "f8c989d627ecfd2fdae1c952a6619a1c618a2f025de5ab2d909d7501e2603b14",
        22242,
        tags(&[&["relay", RELAY], &["challenge", "other-challenge"]]),
        "",
        "5cdddfcac67aae3fed4714e3dcf09cdc10d17f4b4a6c7e4cbccf4b1b534419d2b4cae9597457a679e6b589c010f3c4fdef5cd57fd642caedb8f3761dac150335",
    );
    let (outcome, frame) = handle_auth_at(&mut p, &config(), &e, T);
    assert_eq!(outcome, Err(AuthError::InvalidChallengeTag));
    assert!(!p.auth_confirmed);
    assert!(p.pubkey.is_none());
    assert_eq!(
        frame,
        r#"["NOTICE","Invalid AUTH response for challenge: test-challenge - Invalid challenge tag"]"#
    );
}

#[test]
fn auth_outside_five_minutes_is_rejected() {
    for now in [T + 301, T - 301] {
        let mut p = peer();
        let r = p.check_auth_response_at(RELAY.to_string(), &auth_event(), now);
        assert_eq!(r, Err(AuthError::InvalidCreatedAt));
        assert!(!p.auth_confirmed);
    }
    for now in [T + 300, T - 300] {
        let mut p = peer();
        assert_eq!(p.check_auth_response_at(RELAY.to_string(), &auth_event(), now), Ok(()));
    }
}

#[test]
fn auth_against_current_clock_rejects_old_event() {
    let mut p = peer();
    let (outcome, _) = handle_auth(&mut p, &config(), &auth_event());
    assert_eq!(outcome, Err(AuthError::InvalidCreatedAt));
    assert!(!p.auth_confirmed);
}

#[test]
fn auth_of_wrong_kind_is_rejected() {
    let mut p = peer();
    let e = event(
        "72d100c7d771d315d6099641a08b7d2c2301a855c17c8e4861c0c664461ef5d9",
        1,
        tags(&[&["relay", RELAY], &["challenge", "test-challenge"]]),
        "",
        "99cc7749bce27b46f9a237df61a752cdc4def926551a411b4922f580154c22071f1b9b629c1169ff6a83be31a13a95ea22c4718ea382f18e78c09092ad94beee",
    );
    assert_eq!(p.check_auth_response_at(RELAY.to_string(), &e, T), Err(AuthError::InvalidKind));
}

#[test]
fn auth_for_other_relay_is_rejected() {
    let mut p = peer();
    let e = event(
        "cb41c081ee3bc574e8df65f7e3e1aee396e943fe6c1d1a5aafd3f042b014ca5b",
        22242,
        tags(&[&["relay", "wss://elsewhere"], &["challenge", "test-challenge"]]),
        "",
        "c735956a80ff42c4a409e90021e10165e3aa53c688a0cf1a189d5e37391a4c05a965d2bd5622cb4b844505637f65d75a36bfedef948f751b66469f1a20adf468",
    );
    assert_eq!(p.check_auth_response_at(RELAY.to_string(), &e, T), Err(AuthError::InvalidRelayTag));
}

#[test]
fn auth_tag_keys_match_in_any_case() {
    let mut p = peer();
    let e = event(
        "93a00f7ca3177c60091419d2d3f9dc9e77baf5f6f64fc315e679f0d9d5a9c616",
        22242,
        tags(&[&["RELAY", RELAY], &["Challenge", "test-challenge"]]),
        "",
        "82b26421298d84ca355997095dd60cce6a850ed103918398b32e4ff5e11e402d4a65ecc50a9e75df083f96dd40e3f402eee2c514bc974f8cf40ed1407bbb9926",
    );
    assert_eq!(p.check_auth_response_at(RELAY.to_string(), &e, T), Ok(()));
}

#[test]
fn tampered_or_malformed_auth_is_rejected() {
    let mut tampered = auth_event();
    tampered.content = "changed".to_string();
    let mut p = peer();
    assert_eq!(p.check_auth_response_at(RELAY.to_string(), &tampered, T), Err(AuthError::InvalidEvent));
    let mut short_sig = auth_event();
    short_sig.sig = "abcd".to_string();
    assert_eq!(p.check_auth_response_at(RELAY.to_string(), &short_sig, T), Err(AuthError::InvalidEvent));
    assert!(!p.auth_confirmed);
}

#[test]
fn second_auth_leaves_identity_unchanged() {
    let mut p = peer();
    assert_eq!(p.check_auth_response_at(RELAY.to_string(), &auth_event(), T), Ok(()));
    let again = p.check_auth_response_at(RELAY.to_string(), &auth_event(), T);
    assert_eq!(again, Err(AuthError::AlreadyAuthenticated));
    assert!(p.auth_confirmed);
    assert_eq!(p.pubkey.as_deref(), Some(PUBKEY));
}

#[test]
fn validation_accepts_signed_event_only() {
    assert!(validate_event(&auth_event()));
    let mut wrong_id = auth_event();
    wrong_id.id = "00".repeat(32);
    assert!(!validate_event(&wrong_id));
    let mut bad_sig = auth_event();
    bad_sig.sig = "zz".repeat(64);
    assert!(!validate_event(&bad_sig));
}

#[test]
fn signature_shape_check() {
    assert!(signature_well_formed(&"aB".repeat(64)));
    assert!(!signature_well_formed(&"ab".repeat(63)));
    assert!(!signature_well_formed(&"g0".repeat(64)));
    assert!(!signature_well_formed(&String::new()));
}

#[test]
fn first_tag_lookup_folds_case_and_takes_first() {
    let e = event(
        "",
        1,
        tags(&[&[], &["Relay", "first"], &["relay", "second"], &["x"]]),
        "",
        "",
    );
    assert_eq!(get_event_first_tag_with_value(&e, "RELAY").as_deref(), Some("first"));
    assert_eq!(get_event_first_tag_with_value(&e, "X"), None);
    assert_eq!(get_event_first_tag_with_value(&e, "missing"), None);
}

#[test]
fn lookup_by_given_folded_keys() {
    let t = tags(&[&["a", "1"], &["b", "2"], &["b", "3"]]);
    let keys = vec![Some("a".to_string()), None, Some("b".to_string())];
    assert_eq!(first_value_with_folded_key(&t, &keys, &"b".to_string()).as_deref(), Some("3"));
    assert_eq!(first_value_with_folded_key(&t, &keys, &"a".to_string()).as_deref(), Some("1"));
    assert_eq!(first_value_with_folded_key(&t, &keys, &"c".to_string()), None);
}

#[test]
fn time_window_edges() {
    assert!(is_within_delta(100, 400, 300));
    assert!(!is_within_delta(99, 400, 300));
    assert!(is_within_delta(700, 400, 300));
    assert!(!is_within_delta(701, 400, 300));
    assert!(is_within_delta(0, 10, 300));
    assert!(is_within_delta(u64::MAX, u64::MAX - 300, 300));
}

#[test]
fn notice_frame_format() {
    assert_eq!(notice_frame("hi there"), r#"["NOTICE","hi there"]"#);
    assert_eq!(notice_frame(""), r#"["NOTICE",""]"#);
}

#[test]
fn auth_error_messages() {
    assert_eq!(AuthError::InvalidKind.message(), "Invalid event kind");
    assert_eq!(AuthError::InvalidRelayTag.message(), "Invalid relay tag");
}

fn delegated_note(id: &str, delegation_sig: &str, sig: &str) -> Event {
    event(id, 1, tags(&[&["delegation", "x", "y", delegation_sig]]), "hi", sig)
}

#[test]
fn malformed_delegation_signature_is_refused_without_panic() {
    let e = delegated_note(
        "cc2180df770b28bb545f64403190867d80aebb5786f97e682d62c8d7deca0e7c",
        "zz",
        "b8773a589f69f74aaeb6be6520e9ec0442d253a5a0911d31086a27384c9a64555ce77c51bdc18edce00f75b5d394d1df7916d68895823dcc36e627fd870ea2ba",
    );
    assert!(!validate_event(&e));
}

#[test]
fn well_formed_delegation_signature_is_validated() {
    let e = delegated_note(
        "d1afa81ed9058571e8c7de13f11101e9ada69bf2c404e283d43e2feea959e833",
        &"00".repeat(64),
        "59c8d30c0144f32934076e20f37642929b98b9dd5c72a835c16652c3017125e4311a38efa996c9f960ce52217b5817628cc0e14df681bcd0d6237012c825846c",
    );
    assert!(validate_event(&e));
}

#[test]
fn challenge_is_lowercase_hyphenated_uuid_v4() {
    let c: Vec<char> = PeerInfo::new(9, None).auth_challenge.chars().collect();
    assert_eq!(c.len(), 36);
    for (i, ch) in c.iter().enumerate() {
        if [8, 13, 18, 23].contains(&i) {
            assert_eq!(*ch, '-');
        } else {
            assert!(ch.is_ascii_digit() || ('a'..='f').contains(ch));
        }
    }
    assert_eq!(c[14], '4');
    assert!(['8', '9', 'a', 'b'].contains(&c[19]));
}
