use base64::Engine;
use harbor_agent::api::{
    total_unread, ApiError, AppErrorKind, BoardPostsQuery, ConversationInfo, MessagesQuery,
    SendMessageRequest,
};
use harbor_agent::challenge::{Answer, Challenge, SolveError, Task, TaskAid};
use harbor_agent::contact::{
    address_with_peer, build_contact_bundle, contact_multiaddr, contact_of_bundle,
    frame_contact_string, peer_id_of_multiaddr, shareable_addresses, unframe_contact_string,
    ContactBundle, ContactError,
};
use harbor_agent::handshake::{
    handshake_step, status_is_success, HandshakeAction, HandshakeError, HandshakeEvent,
    HandshakeState, VerifyApiResponse,
};
use harbor_agent::paths::{expand_tilde, tilde_rest};
use harbor_agent::pattern::PatternSequence;
use harbor_agent::text::{
    contains, decimal_chars, find_char, from_chars, parse_i64, remove_all, to_chars, trim,
};

fn chars(s: &str) -> Vec<char> {
    s.chars().collect()
}

fn strings(v: &[&str]) -> Vec<String> {
    v.iter().map(|s| s.to_string()).collect()
}

#[test]
fn text_conversions_round_trip() {
    assert_eq!(to_chars("h\u{e9}llo \u{d7}"), chars("h\u{e9}llo \u{d7}"));
    assert_eq!(from_chars(&chars("h\u{e9}llo")), "h\u{e9}llo");
    assert_eq!(to_chars(""), Vec::<char>::new());
}

#[test]
fn removal_matches_the_standard_replace() {
    for (s, pat) in [
        ("what is what is 3?", "what is"),
        ("aaaa", "aa"),
        ("aaa", "aa"),
        ("ababab", "aba"),
        ("abc", ""),
        ("", "x"),
        ("wwhat ishat is", "what is"),
        ("???", "?"),
    ] {
        assert_eq!(from_chars(&remove_all(&chars(s), &chars(pat))), s.replace(pat, ""));
    }
}

#[test]
fn trimming_matches_the_standard_trim() {
    for s in ["  a b  ", "\t\n x", "x", "", "   ", "\u{a0}7\u{2003}", "a\u{3000}"] {
        assert_eq!(from_chars(&trim(&chars(s))), s.trim());
    }
}

#[test]
fn search_matches_the_standard_search() {
    for (hay, needle) in [("capital of france", "france"), ("abc", ""), ("", ""), ("ab", "abc"), ("aab", "ab"), ("abc", "d")] {
        assert_eq!(contains(&chars(hay), &chars(needle)), hay.contains(needle));
    }
    assert_eq!(find_char(&chars("a-b-c"), '-'), 1);
    assert_eq!(find_char(&chars("abc"), '-'), 3);
    assert_eq!(find_char(&chars(""), '-'), 0);
}

#[test]
fn integers_are_read_as_the_standard_parser_reads_them() {
    for s in [
        "0", "7", "-7", "+7", "007", "-0", "", "+", "-", "--1", "1-", " 1", "1 ", "1_000", "12a",
        "9223372036854775807", "9223372036854775808", "-9223372036854775808",
        "-9223372036854775809", "+9223372036854775807", "99999999999999999999999999",
        "\u{661}\u{662}",
    ] {
        assert_eq!(parse_i64(&chars(s)), s.parse::<i64>().ok(), "input {:?}", s);
    }
}

#[test]
fn integers_are_written_as_the_standard_formatter_writes_them() {
    for n in [0i64, 1, 9, 10, 11, 99, 100, -1, -10, 1234567890, i64::MAX, i64::MIN, i64::MIN + 1] {
        assert_eq!(from_chars(&decimal_chars(n)), n.to_string());
    }
}

#[test]
fn tilde_is_expanded_to_the_home_directory() {
    assert_eq!(expand_tilde("~/.bastion", Some("/home/agent")), "/home/agent/.bastion");
    assert_eq!(expand_tilde("~/.bastion", None), "~/.bastion");
    assert_eq!(expand_tilde("/var/data", Some("/home/agent")), "/var/data");
    assert_eq!(expand_tilde("~", Some("/home/agent")), "~");
    assert_eq!(expand_tilde("~user/x", Some("/home/agent")), "~user/x");
    assert_eq!(expand_tilde("", Some("/home/agent")), "");
    assert_eq!(tilde_rest("~/a/b"), Some("a/b".to_string()));
    assert_eq!(tilde_rest("~/"), Some(String::new()));
    assert_eq!(tilde_rest("a/~/b"), None);
}

#[test]
fn listing_limits_default_to_fifty() {
    assert_eq!(MessagesQuery { limit: None, before: None }.effective_limit(), 50);
    assert_eq!(MessagesQuery { limit: Some(7), before: Some(3) }.effective_limit(), 7);
    assert_eq!(BoardPostsQuery { limit: None, before: None }.effective_limit(), 50);
    assert_eq!(BoardPostsQuery { limit: Some(-1), before: None }.effective_limit(), -1);
}

#[test]
fn content_type_defaults_to_text() {
    let mut req = SendMessageRequest {
        peer_id: "p".to_string(),
        content: "hi".to_string(),
        content_type: None,
        reply_to: None,
    };
    assert_eq!(req.effective_content_type(), "text");
    req.content_type = Some("image".to_string());
    assert_eq!(req.effective_content_type(), "image");
}

fn conversation(unread_count: i64) -> ConversationInfo {
    ConversationInfo {
        conversation_id: "c".to_string(),
        peer_id: "p".to_string(),
        last_message_at: 0,
        unread_count,
    }
}

#[test]
fn unread_counts_are_summed() {
    assert_eq!(total_unread(&vec![]), Some(0));
    assert_eq!(total_unread(&vec![conversation(3), conversation(0), conversation(4)]), Some(7));
    assert_eq!(total_unread(&vec![conversation(i64::MAX), conversation(1)]), None);
    assert_eq!(
        total_unread(&vec![conversation(i64::MAX), conversation(1), conversation(-5)]),
        None
    );
}

#[test]
fn service_errors_map_to_statuses() {
    let status = |kind, message: &str| ApiError { kind, message: message.to_string() }.status_code();
    assert_eq!(status(AppErrorKind::NotFound, "x"), 404);
    assert_eq!(status(AppErrorKind::Validation, "x"), 400);
    assert_eq!(status(AppErrorKind::InvalidData, "x"), 400);
    assert_eq!(status(AppErrorKind::PermissionDenied, "x"), 403);
    assert_eq!(status(AppErrorKind::Unauthorized, "x"), 401);
    assert_eq!(status(AppErrorKind::AlreadyExists, "x"), 409);
    assert_eq!(status(AppErrorKind::Identity, "Identity is locked"), 403);
    assert_eq!(status(AppErrorKind::Identity, "locked; wrong passphrase"), 403);
    assert_eq!(status(AppErrorKind::Identity, "wrong passphrase"), 401);
    assert_eq!(status(AppErrorKind::Identity, "Passphrase too short"), 401);
    assert_eq!(status(AppErrorKind::Identity, "PASSPHRASE"), 500);
    assert_eq!(status(AppErrorKind::Identity, "corrupt"), 500);
    assert_eq!(status(AppErrorKind::Network, "locked"), 502);
    assert_eq!(status(AppErrorKind::Other, "boom"), 500);
}

#[test]
fn shareable_addresses_leave_out_loopback() {
    let external = strings(&[
        "/ip4/127.0.0.1/tcp/4001",
        "/ip4/203.0.113.7/tcp/4001",
        "/ip6/::1/tcp/4001",
        "/ip4/198.51.100.2/tcp/4001/p2p/QmOther",
    ]);
    let relay = strings(&["/ip4/192.0.2.1/tcp/4001/p2p/QmRelay/p2p-circuit/p2p/QmMe"]);
    assert_eq!(
        shareable_addresses(&external, &relay, "QmMe"),
        strings(&["/ip4/203.0.113.7/tcp/4001/p2p/QmMe", "/ip4/198.51.100.2/tcp/4001/p2p/QmOther"])
    );
    let only_loopback = strings(&["/ip4/127.0.0.1/tcp/4001"]);
    assert_eq!(shareable_addresses(&only_loopback, &relay, "QmMe"), relay);
    assert_eq!(shareable_addresses(&vec![], &vec![], "QmMe"), Vec::<String>::new());
    assert_eq!(address_with_peer("/ip4/1.2.3.4", "Qm"), "/ip4/1.2.3.4/p2p/Qm");
}

#[test]
fn contact_address_prefers_the_relay() {
    let relay = strings(&["/relay/a", "/relay/b"]);
    let external = strings(&["/ip4/203.0.113.7/tcp/1", "/ip4/203.0.113.8/tcp/1"]);
    assert_eq!(contact_multiaddr(&relay, &external, "Qm"), Some("/relay/a".to_string()));
    assert_eq!(
        contact_multiaddr(&vec![], &external, "Qm"),
        Some("/ip4/203.0.113.7/tcp/1/p2p/Qm".to_string())
    );
    assert_eq!(
        contact_multiaddr(&vec![], &strings(&["/ip4/1.1.1.1/p2p/QmX"]), "Qm"),
        Some("/ip4/1.1.1.1/p2p/QmX".to_string())
    );
    assert_eq!(contact_multiaddr(&vec![], &vec![], "Qm"), None);
}

#[test]
fn peer_name_is_what_follows_the_last_marker() {
    for a in [
        "/ip4/1.2.3.4/tcp/1/p2p/QmRelay/p2p-circuit/p2p/QmMe",
        "/ip4/1.2.3.4/tcp/1/p2p/QmMe",
        "/ip4/1.2.3.4/tcp/1",
        "",
        "/p2p/",
        "/p2p/p2p/",
        "/p2p//p2p/x",
        "/p2p",
    ] {
        assert_eq!(peer_id_of_multiaddr(a), a.split("/p2p/").last().unwrap(), "address {:?}", a);
    }
}

#[test]
fn contact_string_is_framed_and_unframed() {
    let json = "{\"multiaddr\":\"/ip4/1.2.3.4/p2p/Qm\",\"displayName\":\"\u{e9}\"}";
    let framed = frame_contact_string(json).unwrap();
    let expected = format!(
        "harbor://{}",
        base64::engine::general_purpose::URL_SAFE_NO_PAD.encode(json.as_bytes())
    );
    assert_eq!(framed, expected);
    assert_ne!(framed, json);
    assert_eq!(unframe_contact_string(&framed).unwrap(), json.as_bytes().to_vec());
    assert_eq!(frame_contact_string("").unwrap(), "harbor://");
    assert_eq!(unframe_contact_string("harbor://").unwrap(), Vec::<u8>::new());
}

#[test]
fn malformed_contact_strings_are_refused() {
    match unframe_contact_string("http://abc") {
        Err(e) => {
            assert!(matches!(e, ContactError::InvalidFormat));
            assert_eq!(e.message(), "Invalid contact string format");
        }
        Ok(_) => panic!("a foreign scheme was accepted"),
    }
    assert!(matches!(unframe_contact_string(""), Err(ContactError::InvalidFormat)));
    assert!(matches!(unframe_contact_string("harbor:/"), Err(ContactError::InvalidFormat)));
    assert!(matches!(unframe_contact_string(" harbor://YQ"), Err(ContactError::InvalidFormat)));
    match unframe_contact_string("harbor://a+b/") {
        Err(e) => {
            assert!(matches!(e, ContactError::InvalidEncoding(_)));
            assert!(e.message().starts_with("Invalid contact encoding: "));
        }
        Ok(_) => panic!("standard-alphabet text was accepted"),
    }
    // Padding is not accepted.
    assert!(matches!(unframe_contact_string("harbor://YQ=="), Err(ContactError::InvalidEncoding(_))));
    assert_eq!(unframe_contact_string("harbor://YQ").unwrap(), b"a".to_vec());
}

#[test]
fn bundle_carries_the_keys_in_standard_base64() {
    let public_key: Vec<u8> = vec![0xfb, 0xff, 0xfe, 1, 2];
    let x25519: Vec<u8> = vec![9, 8, 7];
    let bundle = build_contact_bundle(
        "/ip4/1.2.3.4/tcp/1/p2p/QmMe".to_string(),
        "Agent".to_string(),
        &public_key,
        &x25519,
        Some("bio".to_string()),
        None,
    )
    .unwrap();
    assert_eq!(bundle.public_key, base64::engine::general_purpose::STANDARD.encode(&public_key));
    assert_eq!(bundle.x25519_public, "CQgH");
    assert_eq!(bundle.multiaddr, "/ip4/1.2.3.4/tcp/1/p2p/QmMe");
    let contact = contact_of_bundle(&bundle).unwrap();
    assert_eq!(contact.peer_id, "QmMe");
    assert_eq!(contact.public_key, public_key);
    assert_eq!(contact.x25519_public, x25519);
    assert_eq!(contact.display_name, "Agent");
    assert_eq!(contact.bio.as_deref(), Some("bio"));
    assert_eq!(contact.avatar_hash, None);
}

#[test]
fn bundle_with_bad_keys_is_refused() {
    let bundle = |public_key: &str, x25519_public: &str| ContactBundle {
        multiaddr: "/p2p/Qm".to_string(),
        display_name: "A".to_string(),
        public_key: public_key.to_string(),
        x25519_public: x25519_public.to_string(),
        bio: None,
        avatar_hash: None,
    };
    match contact_of_bundle(&bundle("!!", "!!")) {
        Err(e) => {
            assert!(matches!(e, ContactError::InvalidPublicKey(_)));
            assert!(e.message().starts_with("Invalid public key: "));
        }
        Ok(_) => panic!("a bad signing key was accepted"),
    }
    match contact_of_bundle(&bundle("YQ==", "-_")) {
        Err(e) => {
            assert!(matches!(e, ContactError::InvalidX25519Key(_)));
            assert!(e.message().starts_with("Invalid x25519 key: "));
        }
        Ok(_) => panic!("a bad key-agreement key was accepted"),
    }
}

fn sample_challenge() -> Challenge {
    Challenge {
        challenge_id: 42,
        tasks: vec![Task::PatternCompletion {
            sequences: vec![PatternSequence { given: vec![10, 20, 30], predict_count: 2 }],
        }],
    }
}

#[test]
fn handshake_runs_to_a_token() {
    let url = "http://relay:4002";
    let peer = "12D3KooWabc";
    let (state, action) = handshake_step(HandshakeState::Start, HandshakeEvent::Begin, url, peer);
    assert_eq!(state, HandshakeState::AwaitingChallenge);
    match action {
        HandshakeAction::PostChallengeRequest { url, body } => {
            assert_eq!(url, "http://relay:4002/auth/challenge");
            assert_eq!(body.peer_id, peer);
        }
        other => panic!("unexpected action: {:?}", other),
    }
    let (state, action) = handshake_step(
        state,
        HandshakeEvent::Replied { status: 200, body: "{challenge}".to_string() },
        url,
        peer,
    );
    assert_eq!(state, HandshakeState::DecodingChallenge);
    assert!(matches!(action, HandshakeAction::DecodeChallenge { body } if body == "{challenge}"));
    let (state, action) = handshake_step(
        state,
        HandshakeEvent::ChallengeDecoded {
            challenge: sample_challenge(),
            aids: vec![TaskAid::Nothing],
            now: 1_700_000_000,
        },
        url,
        peer,
    );
    assert_eq!(state, HandshakeState::AwaitingToken);
    match action {
        HandshakeAction::PostVerification { url, peer_id, response } => {
            assert_eq!(url, "http://relay:4002/auth/verify");
            assert_eq!(peer_id, peer);
            assert_eq!(response.challenge_id, 42);
            assert_eq!(response.submitted_at, 1_700_000_000);
            assert!(matches!(
                &response.answers[..],
                [Answer::PatternCompletion { predictions }] if predictions == &vec![vec![40, 50]]
            ));
        }
        other => panic!("unexpected action: {:?}", other),
    }
    let (state, action) = handshake_step(
        state,
        HandshakeEvent::Replied { status: 201, body: "{token}".to_string() },
        url,
        peer,
    );
    assert_eq!(state, HandshakeState::DecodingToken);
    assert!(matches!(action, HandshakeAction::DecodeToken { body } if body == "{token}"));
    let (state, action) = handshake_step(
        state,
        HandshakeEvent::TokenDecoded(VerifyApiResponse {
            token: "isnad_ab".to_string(),
            expires_in_seconds: 3600,
            peer_id: peer.to_string(),
        }),
        url,
        peer,
    );
    assert_eq!(state, HandshakeState::Done);
    match action {
        HandshakeAction::Succeed(reply) => {
            assert_eq!(reply.token, "isnad_ab");
            assert_eq!(reply.expires_in_seconds, 3600);
            assert_eq!(reply.peer_id, peer);
        }
        other => panic!("unexpected action: {:?}", other),
    }
}

fn failure(state: HandshakeState, event: HandshakeEvent) -> (HandshakeState, String) {
    match handshake_step(state, event, "http://relay", "peer") {
        (next, HandshakeAction::Fail(e)) => (next, e.message()),
        (_, other) => panic!("unexpected action: {:?}", other),
    }
}

#[test]
fn handshake_failures_are_terminal_and_carry_context() {
    let done = HandshakeState::Done;
    assert_eq!(
        failure(HandshakeState::AwaitingChallenge, HandshakeEvent::SendFailed("timeout".into())),
        (done, "Failed to request challenge: timeout".to_string())
    );
    assert_eq!(
        failure(
            HandshakeState::AwaitingChallenge,
            HandshakeEvent::Replied { status: 503, body: "busy".into() }
        ),
        (done, "Challenge request failed (503): busy".to_string())
    );
    assert_eq!(
        failure(HandshakeState::DecodingChallenge, HandshakeEvent::DecodeFailed("eof".into())),
        (done, "Failed to parse challenge: eof".to_string())
    );
    assert_eq!(
        failure(HandshakeState::AwaitingToken, HandshakeEvent::SendFailed("reset".into())),
        (done, "Failed to submit verification: reset".to_string())
    );
    assert_eq!(
        failure(
            HandshakeState::AwaitingToken,
            HandshakeEvent::Replied { status: 403, body: "{\"error\":\"Peer ID mismatch\"}".into() }
        ),
        (done, "Verification failed (403): {\"error\":\"Peer ID mismatch\"}".to_string())
    );
    assert_eq!(
        failure(HandshakeState::DecodingToken, HandshakeEvent::DecodeFailed("eof".into())),
        (done, "Failed to parse verification result: eof".to_string())
    );
    assert_eq!(
        failure(done, HandshakeEvent::Begin),
        (done, "Handshake event out of order".to_string())
    );
    assert_eq!(
        failure(HandshakeState::Start, HandshakeEvent::SendFailed("x".into())).0,
        done
    );
    assert_eq!(
        failure(HandshakeState::AwaitingToken, HandshakeEvent::Begin).0,
        done
    );
}

#[test]
fn handshake_stops_on_an_unsolvable_challenge() {
    let (state, action) = handshake_step(
        HandshakeState::DecodingChallenge,
        HandshakeEvent::ChallengeDecoded { challenge: sample_challenge(), aids: vec![], now: 0 },
        "http://relay",
        "peer",
    );
    assert_eq!(state, HandshakeState::Done);
    match action {
        HandshakeAction::Fail(e) => {
            assert!(matches!(e, HandshakeError::NotSolved(SolveError::AidCount)));
            assert_eq!(e.message(), "Failed to solve challenge: aids do not match the tasks");
        }
        other => panic!("unexpected action: {:?}", other),
    }
    let transformation = Challenge {
        challenge_id: 1,
        tasks: vec![Task::TextTransformation { input: "a".into(), operations: vec![] }],
    };
    let (_, action) = handshake_step(
        HandshakeState::DecodingChallenge,
        HandshakeEvent::ChallengeDecoded {
            challenge: transformation,
            aids: vec![TaskAid::Nothing],
            now: 0,
        },
        "http://relay",
        "peer",
    );
    match action {
        HandshakeAction::Fail(e) => assert_eq!(
            e.message(),
            "Failed to solve challenge: a transformed text is missing"
        ),
        other => panic!("unexpected action: {:?}", other),
    }
}

#[test]
fn success_statuses_are_200_to_299() {
    assert!(!status_is_success(199));
    assert!(status_is_success(200));
    assert!(status_is_success(204));
    assert!(status_is_success(299));
    assert!(!status_is_success(300));
    assert!(!status_is_success(404));
    assert!(!status_is_success(0));
}
