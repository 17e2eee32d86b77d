use harbor_agent::api::{ChallengeRequest, CheckTokenRequest};
use harbor_agent::challenge::{solve_challenge, Answer, Challenge, Response, Task, TaskAid};
use harbor_agent::pattern::PatternSequence;
use harbor_agent::session::{
    check_token, check_token_at, request_challenge, request_challenge_at, verify_challenge,
    verify_challenge_at, AuthFailure, AuthState, PendingChallenge, Verification, VerifyRequest,
    CHALLENGE_TTL_SECS, TOKEN_TTL_SECS,
};
use harbor_agent::token::generate_token;
use sha2::{Digest, Sha256};

const T0: i64 = 1_700_000_000;

fn pattern_challenge(id: u128) -> (Challenge, Vec<Answer>) {
    let challenge = Challenge {
        challenge_id: id,
        tasks: vec![Task::PatternCompletion {
            sequences: vec![PatternSequence { given: vec![10, 20, 30], predict_count: 2 }],
        }],
    };
    let expected = vec![Answer::PatternCompletion { predictions: vec![vec![40, 50]] }];
    (challenge, expected)
}

fn same_answers(a: &[Answer], b: &[Answer]) -> bool {
    a.len() == b.len()
        && a.iter().zip(b.iter()).all(|pair| match pair {
            (
                Answer::PatternCompletion { predictions: x },
                Answer::PatternCompletion { predictions: y },
            ) => x == y,
            (Answer::TextTransformation { result: x }, Answer::TextTransformation { result: y }) => {
                x == y
            }
            (Answer::ParallelQuestions { answers: x }, Answer::ParallelQuestions { answers: y }) => {
                x == y
            }
            (
                Answer::ReadingComprehension { answers: x },
                Answer::ReadingComprehension { answers: y },
            ) => x == y,
            (Answer::MetaQuestion { answer: x }, Answer::MetaQuestion { answer: y }) => x == y,
            _ => false,
        })
}

/// An oracle that accepts a response whose answers are the expected ones.
fn oracle(entry: &PendingChallenge, response: &Response) -> Result<Verification, String> {
    if same_answers(&entry.expected_answers, &response.answers) {
        Ok(Verification {
            elapsed_ms: 12,
            tasks_correct: response.answers.len(),
            tasks_total: response.answers.len(),
        })
    } else {
        Err("answers are wrong".to_string())
    }
}

fn issue(auth: &mut AuthState, peer: &str, id: u128, now: i64) -> Challenge {
    let (challenge, expected) = pattern_challenge(id);
    let (copy, _) = pattern_challenge(id);
    let got = request_challenge_at(
        auth,
        ChallengeRequest { peer_id: peer.to_string() },
        challenge,
        expected,
        now,
    );
    assert_eq!(got, id);
    copy
}

fn correct_request(peer: &str, challenge: &Challenge, now: i64) -> VerifyRequest {
    let response = solve_challenge(challenge, &vec![TaskAid::Nothing], now).unwrap();
    VerifyRequest { peer_id: peer.to_string(), response }
}

fn is_token_text(token: &str) -> bool {
    token.len() == 70
        && token.starts_with("isnad_")
        && token[6..].chars().all(|c| matches!(c, '0'..='9' | 'a'..='f'))
}

#[test]
fn defaults_are_preserved() {
    assert_eq!(CHALLENGE_TTL_SECS, 60);
    assert_eq!(TOKEN_TTL_SECS, 3600);
    let auth = AuthState::new();
    assert_eq!(auth.challenge_ttl(), 60);
    assert_eq!(auth.token_ttl(), 3600);
    assert_eq!(auth.pending_count(), 0);
    assert_eq!(auth.token_count(), 0);
    let custom = AuthState::with_ttls(5, 10);
    assert_eq!(custom.challenge_ttl(), 5);
    assert_eq!(custom.token_ttl(), 10);
}

#[test]
fn two_challenges_for_one_peer_are_independent() {
    let mut auth = AuthState::new();
    let first = issue(&mut auth, "peer-a", 1, T0);
    let second = issue(&mut auth, "peer-a", 2, T0 + 1);
    assert_ne!(first.challenge_id, second.challenge_id);
    assert_eq!(auth.pending_count(), 2);

    let ok = verify_challenge_at(&mut auth, &correct_request("peer-a", &first, T0 + 2), oracle, T0 + 2);
    assert!(ok.is_ok());
    assert_eq!(auth.pending_count(), 1);

    let again =
        verify_challenge_at(&mut auth, &correct_request("peer-a", &first, T0 + 3), oracle, T0 + 3);
    assert!(matches!(again, Err(AuthFailure::ChallengeNotFoundOrExpired)));
    assert_eq!(auth.pending_count(), 1);

    let other =
        verify_challenge_at(&mut auth, &correct_request("peer-a", &second, T0 + 4), oracle, T0 + 4);
    assert!(other.is_ok());
    assert_eq!(auth.pending_count(), 0);
    assert_ne!(ok.unwrap().token, other.unwrap().token);
}

#[test]
fn consumed_challenge_is_not_found() {
    let mut auth = AuthState::new();
    let challenge = issue(&mut auth, "peer-a", 9, T0);
    assert!(verify_challenge_at(&mut auth, &correct_request("peer-a", &challenge, T0), oracle, T0)
        .is_ok());
    let replay = verify_challenge_at(&mut auth, &correct_request("peer-a", &challenge, T0), oracle, T0);
    match replay {
        Err(failure) => {
            assert!(matches!(failure, AuthFailure::ChallengeNotFoundOrExpired));
            assert_eq!(failure.status_code(), 404);
            assert_eq!(failure.message(), "Challenge not found or expired");
            assert_eq!(failure.to_body().error, "Challenge not found or expired");
        }
        Ok(_) => panic!("a consumed challenge was verified again"),
    }
}

#[test]
fn unknown_challenge_is_not_found() {
    let mut auth = AuthState::new();
    let (challenge, _) = pattern_challenge(77);
    let r = verify_challenge_at(&mut auth, &correct_request("peer-a", &challenge, T0), oracle, T0);
    assert!(matches!(r, Err(AuthFailure::ChallengeNotFoundOrExpired)));
}

#[test]
fn another_peer_is_refused_and_the_challenge_is_consumed() {
    let mut auth = AuthState::new();
    let challenge = issue(&mut auth, "peer-a", 5, T0);
    let r = verify_challenge_at(&mut auth, &correct_request("peer-b", &challenge, T0), oracle, T0);
    match r {
        Err(failure) => {
            assert!(matches!(failure, AuthFailure::PeerMismatch));
            assert_eq!(failure.status_code(), 403);
            assert_eq!(failure.message(), "Peer ID mismatch");
        }
        Ok(_) => panic!("a foreign peer was verified"),
    }
    assert_eq!(auth.pending_count(), 0);
    assert_eq!(auth.token_count(), 0);
    // No retry with the same identifier, not even by the right peer.
    let retry = verify_challenge_at(&mut auth, &correct_request("peer-a", &challenge, T0), oracle, T0);
    assert!(matches!(retry, Err(AuthFailure::ChallengeNotFoundOrExpired)));
}

#[test]
fn rejected_response_fails_with_the_reason() {
    let mut auth = AuthState::new();
    let challenge = issue(&mut auth, "peer-a", 5, T0);
    let wrong = VerifyRequest {
        peer_id: "peer-a".to_string(),
        response: Response {
            challenge_id: challenge.challenge_id,
            submitted_at: T0,
            answers: vec![Answer::PatternCompletion { predictions: vec![vec![1, 2]] }],
        },
    };
    match verify_challenge_at(&mut auth, &wrong, oracle, T0) {
        Err(failure) => {
            assert!(matches!(&failure, AuthFailure::VerificationFailed(reason) if reason == "answers are wrong"));
            assert_eq!(failure.status_code(), 403);
            assert_eq!(failure.message(), "Verification failed: answers are wrong");
        }
        Ok(_) => panic!("a wrong response was verified"),
    }
    assert_eq!(auth.pending_count(), 0);
    assert_eq!(auth.token_count(), 0);
    assert!(!auth.is_peer_verified_at("peer-a", T0));
}

#[test]
fn misshapen_response_is_rejected_before_the_oracle() {
    let mut auth = AuthState::new();
    let challenge = issue(&mut auth, "peer-a", 5, T0);
    let no_answers = VerifyRequest {
        peer_id: "peer-a".to_string(),
        response: Response { challenge_id: challenge.challenge_id, submitted_at: T0, answers: vec![] },
    };
    let r = verify_challenge_at(
        &mut auth,
        &no_answers,
        |_: &PendingChallenge, _: &Response| -> Result<Verification, String> {
            panic!("the oracle was asked")
        },
        T0,
    );
    assert!(matches!(r, Err(AuthFailure::VerificationFailed(_))));
    assert_eq!(auth.pending_count(), 0);

    let challenge = issue(&mut auth, "peer-a", 6, T0);
    let wrong_variant = VerifyRequest {
        peer_id: "peer-a".to_string(),
        response: Response {
            challenge_id: challenge.challenge_id,
            submitted_at: T0,
            answers: vec![Answer::MetaQuestion { answer: "x".to_string() }],
        },
    };
    let r = verify_challenge_at(
        &mut auth,
        &wrong_variant,
        |_: &PendingChallenge, _: &Response| -> Result<Verification, String> {
            panic!("the oracle was asked")
        },
        T0,
    );
    match r {
        Err(failure) => assert_eq!(
            failure.message(),
            "Verification failed: Answers do not match the tasks of the challenge"
        ),
        Ok(_) => panic!("a misshapen response was verified"),
    }
}

#[test]
fn internal_error_is_reported_as_500() {
    let failure = AuthFailure::InternalReconstructionError("bad json".to_string());
    assert_eq!(failure.status_code(), 500);
    assert_eq!(failure.message(), "Internal error: bad json");
}

#[test]
fn fresh_token_is_valid_with_full_time_left() {
    let mut auth = AuthState::new();
    let challenge = issue(&mut auth, "peer-a", 5, T0);
    let reply = verify_challenge_at(&mut auth, &correct_request("peer-a", &challenge, T0), oracle, T0)
        .unwrap();
    assert_eq!(reply.expires_in_seconds, 3600);
    assert_eq!(reply.peer_id, "peer-a");
    assert!(is_token_text(&reply.token));
    let check = auth.lookup_token(&reply.token, T0);
    assert!(check.valid);
    assert_eq!(check.peer_id.as_deref(), Some("peer-a"));
    assert_eq!(check.remaining_seconds, 3600);
    assert!(auth.is_peer_verified_at("peer-a", T0));
    assert!(!auth.is_peer_verified_at("peer-b", T0));
    let later = auth.lookup_token(&reply.token, T0 + 100);
    assert!(later.valid);
    assert_eq!(later.remaining_seconds, 3500);
}

#[test]
fn token_expires_without_a_sweep() {
    let mut auth = AuthState::new();
    let challenge = issue(&mut auth, "peer-a", 5, T0);
    let reply = verify_challenge_at(&mut auth, &correct_request("peer-a", &challenge, T0), oracle, T0)
        .unwrap();
    let last = auth.lookup_token(&reply.token, T0 + 3599);
    assert!(last.valid);
    assert_eq!(last.remaining_seconds, 1);
    assert!(auth.is_peer_verified_at("peer-a", T0 + 3599));

    let gone = auth.lookup_token(&reply.token, T0 + 3600);
    assert!(!gone.valid);
    assert_eq!(gone.peer_id, None);
    assert_eq!(gone.remaining_seconds, 0);
    assert!(!auth.is_peer_verified_at("peer-a", T0 + 3600));
    // Still held: expiry is logical, removal comes with the sweep.
    assert_eq!(auth.token_count(), 1);
}

#[test]
fn unknown_token_is_invalid() {
    let auth = AuthState::new();
    let check = check_token_at(&auth, &CheckTokenRequest { token: "isnad_00".to_string() }, T0);
    assert!(!check.valid);
    assert_eq!(check.peer_id, None);
    assert_eq!(check.remaining_seconds, 0);
}

#[test]
fn sweep_removes_only_what_is_expired() {
    let mut auth = AuthState::with_ttls(60, 100);
    let old = issue(&mut auth, "peer-a", 1, T0);
    let old_token =
        verify_challenge_at(&mut auth, &correct_request("peer-a", &old, T0), oracle, T0).unwrap().token;
    issue(&mut auth, "peer-b", 2, T0 + 10);
    issue(&mut auth, "peer-c", 3, T0 + 50);
    let fresh = issue(&mut auth, "peer-d", 4, T0 + 55);
    let fresh_token =
        verify_challenge_at(&mut auth, &correct_request("peer-d", &fresh, T0 + 55), oracle, T0 + 55)
            .unwrap()
            .token;
    assert_eq!(auth.pending_count(), 2);
    assert_eq!(auth.token_count(), 2);

    // At T0 + 69 the challenge of T0 + 10 has age 59 and stays.
    auth.cleanup_at(T0 + 69);
    assert_eq!(auth.pending_count(), 2);
    assert_eq!(auth.token_count(), 2);

    // At T0 + 70 its age is 60: it goes, the one of T0 + 50 stays.
    auth.cleanup_at(T0 + 70);
    assert_eq!(auth.pending_count(), 1);
    assert_eq!(auth.token_count(), 2);

    // At T0 + 100 the first token has age 100 and goes; the second stays.
    auth.cleanup_at(T0 + 100);
    assert_eq!(auth.pending_count(), 1);
    assert_eq!(auth.token_count(), 1);
    assert!(!auth.lookup_token(&old_token, T0 + 100).valid);
    let kept = auth.lookup_token(&fresh_token, T0 + 100);
    assert!(kept.valid);
    assert_eq!(kept.remaining_seconds, 55);

    auth.cleanup_at(T0 + 1000);
    assert_eq!(auth.pending_count(), 0);
    assert_eq!(auth.token_count(), 0);
}

#[test]
fn requesting_a_challenge_sweeps_the_store() {
    let mut auth = AuthState::new();
    issue(&mut auth, "peer-a", 1, T0);
    issue(&mut auth, "peer-a", 2, T0 + 61);
    assert_eq!(auth.pending_count(), 1);
}

#[test]
fn expired_but_unswept_challenge_can_still_be_consumed() {
    let mut auth = AuthState::new();
    let challenge = issue(&mut auth, "peer-a", 1, T0);
    let r = verify_challenge_at(
        &mut auth,
        &correct_request("peer-a", &challenge, T0 + 500),
        oracle,
        T0 + 500,
    );
    assert!(r.is_ok());
}

#[test]
fn same_identifier_replaces_the_pending_entry() {
    let mut auth = AuthState::new();
    issue(&mut auth, "peer-a", 1, T0);
    let challenge = issue(&mut auth, "peer-b", 1, T0 + 1);
    assert_eq!(auth.pending_count(), 1);
    let r = verify_challenge_at(&mut auth, &correct_request("peer-b", &challenge, T0 + 1), oracle, T0 + 1);
    assert!(r.is_ok());
}

#[test]
fn remaining_seconds_are_cut_off_at_the_range() {
    let mut auth = AuthState::with_ttls(60, i64::MAX);
    auth.record_token("isnad_x", "peer-a", 10);
    let check = auth.lookup_token("isnad_x", -10);
    assert!(check.valid);
    assert_eq!(check.remaining_seconds, i64::MAX);
}

#[test]
fn recorded_token_replaces_one_with_the_same_text() {
    let mut auth = AuthState::new();
    auth.record_token("isnad_x", "peer-a", T0);
    auth.record_token("isnad_x", "peer-b", T0 + 5);
    assert_eq!(auth.token_count(), 1);
    let check = auth.lookup_token("isnad_x", T0 + 5);
    assert_eq!(check.peer_id.as_deref(), Some("peer-b"));
    assert_eq!(check.remaining_seconds, 3600);
    assert!(!auth.is_peer_verified_at("peer-a", T0 + 5));
}

#[test]
fn token_is_the_hex_digest_of_peer_nonce_and_time() {
    let nonce: Vec<u8> = (1..=16).collect();
    let token = generate_token("12D3KooWabc", &nonce, T0);
    let mut hasher = Sha256::new();
    hasher.update("12D3KooWabc".as_bytes());
    hasher.update(&nonce);
    hasher.update(T0.to_le_bytes());
    let expected: String =
        hasher.finalize().iter().map(|b| format!("{:02x}", b)).collect::<Vec<_>>().join("");
    assert_eq!(token, format!("isnad_{}", expected));
    assert!(is_token_text(&token));
    // Each part of the preimage matters.
    assert_ne!(token, generate_token("12D3KooWabd", &nonce, T0));
    assert_ne!(token, generate_token("12D3KooWabc", &nonce, T0 + 1));
    assert_ne!(token, generate_token("12D3KooWabc", &vec![0u8; 16], T0));
    // A negative time is hashed in two's complement.
    let early = generate_token("p", &nonce, -2);
    let mut hasher = Sha256::new();
    hasher.update(b"p");
    hasher.update(&nonce);
    hasher.update((-2i64).to_le_bytes());
    let expected: String =
        hasher.finalize().iter().map(|b| format!("{:02x}", b)).collect::<Vec<_>>().join("");
    assert_eq!(early, format!("isnad_{}", expected));
}

#[test]
fn end_to_end_handshake_on_the_relay() {
    let mut auth = AuthState::new();
    let peer = "12D3KooWabc";
    let challenge = issue(&mut auth, peer, 0xfeed, T0);
    let response = solve_challenge(&challenge, &vec![TaskAid::Nothing], T0).unwrap();
    match &response.answers[0] {
        Answer::PatternCompletion { predictions } => assert_eq!(predictions, &vec![vec![40, 50]]),
        other => panic!("unexpected answer: {:?}", other),
    }
    let reply = verify_challenge_at(
        &mut auth,
        &VerifyRequest { peer_id: peer.to_string(), response },
        oracle,
        T0,
    )
    .unwrap();
    assert!(is_token_text(&reply.token));
    let check = check_token_at(&auth, &CheckTokenRequest { token: reply.token }, T0);
    assert!(check.valid);
    assert_eq!(check.peer_id.as_deref(), Some("12D3KooWabc"));
    assert_eq!(check.remaining_seconds, 3600);
}

#[test]
fn handshake_on_the_relay_by_the_clock() {
    let mut auth = AuthState::new();
    let peer = "12D3KooWabc";
    let (challenge, expected) = pattern_challenge(0xbeef);
    let (copy, _) = pattern_challenge(0xbeef);
    let id = request_challenge(
        &mut auth,
        ChallengeRequest { peer_id: peer.to_string() },
        challenge,
        expected,
    );
    assert_eq!(id, 0xbeef);
    assert_eq!(auth.pending_count(), 1);
    assert!(!auth.is_peer_verified(peer));
    let reply = verify_challenge(&mut auth, &correct_request(peer, &copy, T0), oracle).unwrap();
    assert!(is_token_text(&reply.token));
    assert_eq!(reply.expires_in_seconds, 3600);
    assert!(auth.is_peer_verified(peer));
    let check = check_token(&auth, &CheckTokenRequest { token: reply.token.clone() });
    assert!(check.valid);
    assert_eq!(check.peer_id.as_deref(), Some(peer));
    assert!(check.remaining_seconds == 3600 || check.remaining_seconds == 3599);
    // The clock is the present: a token issued long ago is swept.
    auth.record_token("isnad_old", "peer-old", 1_000);
    assert_eq!(auth.token_count(), 2);
    auth.cleanup();
    assert_eq!(auth.token_count(), 1);
    assert!(check_token(&auth, &CheckTokenRequest { token: reply.token }).valid);
    let replay = verify_challenge(&mut auth, &correct_request(peer, &copy, T0), oracle);
    assert!(matches!(replay, Err(AuthFailure::ChallengeNotFoundOrExpired)));
}

#[test]
fn verification_is_completed_by_the_clock() {
    let mut auth = AuthState::new();
    let rejected = auth.complete_verification("peer-a", Err("too slow".to_string()));
    assert!(matches!(rejected, Err(AuthFailure::VerificationFailed(reason)) if reason == "too slow"));
    assert_eq!(auth.token_count(), 0);
    let accepted = auth
        .complete_verification(
            "peer-a",
            Ok(Verification { elapsed_ms: 5, tasks_correct: 1, tasks_total: 1 }),
        )
        .unwrap();
    assert_eq!(accepted.peer_id, "peer-a");
    assert!(auth.is_peer_verified("peer-a"));
}

#[test]
fn tokens_of_one_peer_at_one_time_differ() {
    let mut auth = AuthState::new();
    let accepted = Verification { elapsed_ms: 5, tasks_correct: 1, tasks_total: 1 };
    let first = auth.complete_verification_at("peer-a", Ok(accepted), T0).unwrap();
    let second = auth.complete_verification_at("peer-a", Ok(accepted), T0).unwrap();
    assert_ne!(first.token, second.token);
    assert_eq!(auth.token_count(), 2);
    assert!(auth.lookup_token(&first.token, T0).valid);
    assert!(auth.lookup_token(&second.token, T0).valid);
}
