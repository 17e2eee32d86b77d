//! The agent's side of the handshake with a relay: request a challenge,
//! solve it, submit the answers, receive a token.
//!
//! The handshake is a state machine. Sending requests and decoding bodies is
//! done by the caller; each step takes what the caller observed and returns
//! what the caller is to do next. There is no retry: any failure ends the
//! attempt, and a new attempt starts with a new challenge.

use crate::api::ChallengeRequest;
use crate::challenge::{
    is_solution, solve_challenge, solve_error, Challenge, Response, SolveError, TaskAid,
};
use crate::text::{decimal, decimal_chars, from_chars};
use vstd::prelude::*;

verus! {

/// The token a relay returned.
#[derive(Debug)]
pub struct VerifyApiResponse {
    pub token: String,
    pub expires_in_seconds: i64,
    pub peer_id: String,
}

/// Where the handshake stands.
#[derive(Clone, Copy, Debug, PartialEq, Eq, Structural)]
pub enum HandshakeState {
    /// Nothing has been sent.
    Start,
    /// The challenge has been requested.
    AwaitingChallenge,
    /// The challenge arrived and is being decoded.
    DecodingChallenge,
    /// The answers have been submitted.
    AwaitingToken,
    /// The relay's reply arrived and is being decoded.
    DecodingToken,
    /// The attempt has ended.
    Done,
}

/// What the caller observed.
#[derive(Debug)]
pub enum HandshakeEvent {
    /// The caller wants to authenticate.
    Begin,
    /// A request could not be sent or got no reply.
    SendFailed(String),
    /// A reply arrived.
    Replied { status: u16, body: String },
    /// The challenge was decoded; with it come the aids for its tasks and
    /// the current time.
    ChallengeDecoded { challenge: Challenge, aids: Vec<TaskAid>, now: i64 },
    /// The relay's token reply was decoded.
    TokenDecoded(VerifyApiResponse),
    /// A body could not be decoded.
    DecodeFailed(String),
}

/// Why the handshake failed.
#[derive(Debug)]
pub enum HandshakeError {
    /// The challenge request could not be sent.
    ChallengeRequestNotSent(String),
    /// The relay refused the challenge request.
    ChallengeRequestFailed { status: u16, body: String },
    /// The challenge could not be decoded.
    ChallengeNotDecoded(String),
    /// The challenge could not be solved.
    NotSolved(SolveError),
    /// The answers could not be sent.
    VerificationNotSent(String),
    /// The relay rejected the answers.
    VerificationFailed { status: u16, body: String },
    /// The relay's token reply could not be decoded.
    TokenNotDecoded(String),
    /// The caller reported something that cannot happen in this state.
    OutOfOrder,
}

/// What the caller is to do next.
#[derive(Debug)]
pub enum HandshakeAction {
    /// Send the body to the URL and report the reply.
    PostChallengeRequest { url: String, body: ChallengeRequest },
    /// Decode the body as a challenge, compute the aids, and report them.
    DecodeChallenge { body: String },
    /// Send the peer's name and the response to the URL and report the reply.
    PostVerification { url: String, peer_id: String, response: Response },
    /// Decode the body as a token reply and report it.
    DecodeToken { body: String },
    /// The handshake succeeded with this token.
    Succeed(VerifyApiResponse),
    /// The handshake failed.
    Fail(HandshakeError),
}

/// The path of the challenge endpoint.
pub open spec fn challenge_path() -> Seq<char> {
    "/auth/challenge"@
}

/// The path of the verification endpoint.
pub open spec fn verify_path() -> Seq<char> {
    "/auth/verify"@
}

/// A status that reports success: 200 to 299.
pub open spec fn is_success(status: u16) -> bool {
    200 <= status < 300
}

/// The text that reports a handshake failure.
pub open spec fn error_text(e: HandshakeError) -> Seq<char> {
    match e {
        HandshakeError::ChallengeRequestNotSent(why) => "Failed to request challenge: "@ + why@,
        HandshakeError::ChallengeRequestFailed { status, body } => "Challenge request failed ("@
            + decimal(status as int) + "): "@ + body@,
        HandshakeError::ChallengeNotDecoded(why) => "Failed to parse challenge: "@ + why@,
        HandshakeError::NotSolved(SolveError::AidCount) => "Failed to solve challenge: aids do not match the tasks"@,
        HandshakeError::NotSolved(SolveError::MissingTransformation) => "Failed to solve challenge: a transformed text is missing"@,
        HandshakeError::VerificationNotSent(why) => "Failed to submit verification: "@ + why@,
        HandshakeError::VerificationFailed { status, body } => "Verification failed ("@ + decimal(
            status as int,
        ) + "): "@ + body@,
        HandshakeError::TokenNotDecoded(why) => "Failed to parse verification result: "@ + why@,
        HandshakeError::OutOfOrder => "Handshake event out of order"@,
    }
}

/// The step of the handshake: in `state`, on `event`, the machine goes to
/// `next` and asks for `action`.
pub open spec fn steps(
    state: HandshakeState,
    event: HandshakeEvent,
    auth_url: Seq<char>,
    peer_id: Seq<char>,
    next: HandshakeState,
    action: HandshakeAction,
) -> bool {
    match (state, event) {
        (HandshakeState::Start, HandshakeEvent::Begin) => {
            &&& next == HandshakeState::AwaitingChallenge
            &&& action matches HandshakeAction::PostChallengeRequest { url, body }
            &&& url@ == auth_url + challenge_path()
            &&& body.peer_id@ == peer_id
        },
        (HandshakeState::AwaitingChallenge, HandshakeEvent::SendFailed(why)) => {
            &&& next == HandshakeState::Done
            &&& action matches HandshakeAction::Fail(HandshakeError::ChallengeRequestNotSent(text))
            &&& text@ == why@
        },
        (HandshakeState::AwaitingChallenge, HandshakeEvent::Replied { status, body }) => {
            if is_success(status) {
                &&& next == HandshakeState::DecodingChallenge
                &&& action matches HandshakeAction::DecodeChallenge { body: text }
                &&& text@ == body@
            } else {
                &&& next == HandshakeState::Done
                &&& action matches HandshakeAction::Fail(
                    HandshakeError::ChallengeRequestFailed { status: code, body: text },
                )
                &&& code == status
                &&& text@ == body@
            }
        },
        (HandshakeState::DecodingChallenge, HandshakeEvent::DecodeFailed(why)) => {
            &&& next == HandshakeState::Done
            &&& action matches HandshakeAction::Fail(HandshakeError::ChallengeNotDecoded(text))
            &&& text@ == why@
        },
        (
            HandshakeState::DecodingChallenge,
            HandshakeEvent::ChallengeDecoded { challenge, aids, now },
        ) => {
            match solve_error(challenge, aids@) {
                Some(e) => {
                    &&& next == HandshakeState::Done
                    &&& action matches HandshakeAction::Fail(HandshakeError::NotSolved(err))
                    &&& err == e
                },
                None => {
                    &&& next == HandshakeState::AwaitingToken
                    &&& action matches HandshakeAction::PostVerification {
                        url,
                        peer_id: name,
                        response,
                    }
                    &&& url@ == auth_url + verify_path()
                    &&& name@ == peer_id
                    &&& is_solution(challenge, aids@, now, response)
                },
            }
        },
        (HandshakeState::AwaitingToken, HandshakeEvent::SendFailed(why)) => {
            &&& next == HandshakeState::Done
            &&& action matches HandshakeAction::Fail(HandshakeError::VerificationNotSent(text))
            &&& text@ == why@
        },
        (HandshakeState::AwaitingToken, HandshakeEvent::Replied { status, body }) => {
            if is_success(status) {
                &&& next == HandshakeState::DecodingToken
                &&& action matches HandshakeAction::DecodeToken { body: text }
                &&& text@ == body@
            } else {
                &&& next == HandshakeState::Done
                &&& action matches HandshakeAction::Fail(
                    HandshakeError::VerificationFailed { status: code, body: text },
                )
                &&& code == status
                &&& text@ == body@
            }
        },
        (HandshakeState::DecodingToken, HandshakeEvent::DecodeFailed(why)) => {
            &&& next == HandshakeState::Done
            &&& action matches HandshakeAction::Fail(HandshakeError::TokenNotDecoded(text))
            &&& text@ == why@
        },
        (HandshakeState::DecodingToken, HandshakeEvent::TokenDecoded(reply)) => {
            &&& next == HandshakeState::Done
            &&& action matches HandshakeAction::Succeed(token)
            &&& token.token@ == reply.token@
            &&& token.expires_in_seconds == reply.expires_in_seconds
            &&& token.peer_id@ == reply.peer_id@
        },
        _ => {
            &&& next == HandshakeState::Done
            &&& action matches HandshakeAction::Fail(HandshakeError::OutOfOrder)
        },
    }
}

/// Tells whether a status reports success.
pub fn status_is_success(status: u16) -> (r: bool)
    ensures
        r == is_success(status),
{
    200 <= status && status < 300
}

/// The URL of an endpoint of the relay.
fn endpoint(auth_url: &str, path: &str) -> (r: String)
    ensures
        r@ == auth_url@ + path@,
{
    auth_url.to_owned().concat(path)
}

/// Takes one step of the handshake.
///
/// From `Start`, `Begin` asks for the challenge request. A reply with a
/// success status is handed back for decoding; any other reply, a request
/// that could not be sent, and a body that could not be decoded end the
/// attempt with the matching failure. A decoded challenge is solved and its
/// response submitted; a decoded token reply ends the attempt successfully.
/// An event that does not belong to the state ends the attempt as out of
/// order.
pub fn handshake_step(
    state: HandshakeState,
    event: HandshakeEvent,
    auth_url: &str,
    peer_id: &str,
) -> (r: (HandshakeState, HandshakeAction))
    ensures
        steps(state, event, auth_url@, peer_id@, r.0, r.1),
{
    match state {
        HandshakeState::Start => match event {
            HandshakeEvent::Begin => (
                HandshakeState::AwaitingChallenge,
                HandshakeAction::PostChallengeRequest {
                    url: endpoint(auth_url, "/auth/challenge"),
                    body: ChallengeRequest { peer_id: peer_id.to_owned() },
                },
            ),
            _ => (HandshakeState::Done, HandshakeAction::Fail(HandshakeError::OutOfOrder)),
        },
        HandshakeState::AwaitingChallenge => match event {
            HandshakeEvent::SendFailed(why) => (
                HandshakeState::Done,
                HandshakeAction::Fail(HandshakeError::ChallengeRequestNotSent(why)),
            ),
            HandshakeEvent::Replied { status, body } => {
                if status_is_success(status) {
                    (HandshakeState::DecodingChallenge, HandshakeAction::DecodeChallenge { body })
                } else {
                    (
                        HandshakeState::Done,
                        HandshakeAction::Fail(
                            HandshakeError::ChallengeRequestFailed { status, body },
                        ),
                    )
                }
            },
            _ => (HandshakeState::Done, HandshakeAction::Fail(HandshakeError::OutOfOrder)),
        },
        HandshakeState::DecodingChallenge => match event {
            HandshakeEvent::DecodeFailed(why) => (
                HandshakeState::Done,
                HandshakeAction::Fail(HandshakeError::ChallengeNotDecoded(why)),
            ),
            HandshakeEvent::ChallengeDecoded { challenge, aids, now } => {
                match solve_challenge(&challenge, &aids, now) {
                    Ok(response) => (
                        HandshakeState::AwaitingToken,
                        HandshakeAction::PostVerification {
                            url: endpoint(auth_url, "/auth/verify"),
                            peer_id: peer_id.to_owned(),
                            response,
                        },
                    ),
                    Err(e) => (
                        HandshakeState::Done,
                        HandshakeAction::Fail(HandshakeError::NotSolved(e)),
                    ),
                }
            },
            _ => (HandshakeState::Done, HandshakeAction::Fail(HandshakeError::OutOfOrder)),
        },
        HandshakeState::AwaitingToken => match event {
            HandshakeEvent::SendFailed(why) => (
                HandshakeState::Done,
                HandshakeAction::Fail(HandshakeError::VerificationNotSent(why)),
            ),
            HandshakeEvent::Replied { status, body } => {
                if status_is_success(status) {
                    (HandshakeState::DecodingToken, HandshakeAction::DecodeToken { body })
                } else {
                    (
                        HandshakeState::Done,
                        HandshakeAction::Fail(HandshakeError::VerificationFailed { status, body }),
                    )
                }
            },
            _ => (HandshakeState::Done, HandshakeAction::Fail(HandshakeError::OutOfOrder)),
        },
        HandshakeState::DecodingToken => match event {
            HandshakeEvent::DecodeFailed(why) => (
                HandshakeState::Done,
                HandshakeAction::Fail(HandshakeError::TokenNotDecoded(why)),
            ),
            HandshakeEvent::TokenDecoded(reply) => (
                HandshakeState::Done,
                HandshakeAction::Succeed(reply),
            ),
            _ => (HandshakeState::Done, HandshakeAction::Fail(HandshakeError::OutOfOrder)),
        },
        HandshakeState::Done => (
            HandshakeState::Done,
            HandshakeAction::Fail(HandshakeError::OutOfOrder),
        ),
    }
}

impl HandshakeError {
    /// The text that reports this failure, with the status and the raw body
    /// where the relay replied.
    pub fn message(&self) -> (r: String)
        ensures
            r@ == error_text(*self),
    {
        match self {
            HandshakeError::ChallengeRequestNotSent(why) => "Failed to request challenge: ".to_owned().concat(
                why.as_str(),
            ),
            HandshakeError::ChallengeRequestFailed { status, body } => {
                let code = from_chars(&decimal_chars(*status as i64));
                "Challenge request failed (".to_owned().concat(code.as_str()).concat("): ").concat(
                    body.as_str(),
                )
            },
            HandshakeError::ChallengeNotDecoded(why) => "Failed to parse challenge: ".to_owned().concat(
                why.as_str(),
            ),
            HandshakeError::NotSolved(e) => match e {
                SolveError::AidCount => "Failed to solve challenge: aids do not match the tasks".to_owned(),
                SolveError::MissingTransformation => "Failed to solve challenge: a transformed text is missing".to_owned(),
            },
            HandshakeError::VerificationNotSent(why) => "Failed to submit verification: ".to_owned().concat(
                why.as_str(),
            ),
            HandshakeError::VerificationFailed { status, body } => {
                let code = from_chars(&decimal_chars(*status as i64));
                "Verification failed (".to_owned().concat(code.as_str()).concat("): ").concat(
                    body.as_str(),
                )
            },
            HandshakeError::TokenNotDecoded(why) => "Failed to parse verification result: ".to_owned().concat(
                why.as_str(),
            ),
            HandshakeError::OutOfOrder => "Handshake event out of order".to_owned(),
        }
    }
}

/// A failed step is final: from `Done` every event is out of order, so an
/// attempt that has ended cannot be resumed.
pub proof fn law_done_is_terminal(
    event: HandshakeEvent,
    auth_url: Seq<char>,
    peer_id: Seq<char>,
    next: HandshakeState,
    action: HandshakeAction,
)
    requires
        steps(HandshakeState::Done, event, auth_url, peer_id, next, action),
    ensures
        next == HandshakeState::Done,
        action == HandshakeAction::Fail(HandshakeError::OutOfOrder),
{
}

} // verus!
