//! The relay's session store: pending challenges and issued tokens, each
//! with a time to live.
//!
//! Times are Unix seconds. The age of an entry is the current time minus the
//! time the entry was made; an entry is live while its age is below the time
//! to live of its kind. A token that is no longer live is invalid whether or
//! not it has been swept.

use crate::api::{ChallengeRequest, CheckTokenRequest};
use crate::challenge::{Answer, Challenge, Response, Task};
use crate::keyed::{
    distinct_keys, kept, keyed, lemma_keyed, lemma_keyed_len, lemma_keyed_push, lemma_keyed_remove,
};
use crate::token::{clock_seconds, fresh_token, token_for, token_shaped};
use vstd::prelude::*;

verus! {

/// How long a pending challenge stays valid, in seconds, unless configured.
pub const CHALLENGE_TTL_SECS: i64 = 60;

/// How long a token stays valid, in seconds, unless configured.
pub const TOKEN_TTL_SECS: i64 = 3600;

/// A challenge that has been issued and not yet verified or swept.
#[derive(Debug)]
pub struct PendingChallenge {
    pub expected_answers: Vec<Answer>,
    pub raw_challenge: Challenge,
    pub peer_id: String,
    pub issued_at: i64,
}

/// A token issued to a peer.
#[derive(Debug)]
pub struct VerifiedToken {
    pub token: String,
    pub peer_id: String,
    pub verified_at: i64,
}

/// What a token entry says: whose it is and when it was issued.
pub struct TokenModel {
    pub peer_id: Seq<char>,
    pub verified_at: i64,
}

/// What the challenge oracle measured on an accepted response.
#[derive(Clone, Copy, Debug, PartialEq, Eq, Structural)]
pub struct Verification {
    pub elapsed_ms: u64,
    pub tasks_correct: usize,
    pub tasks_total: usize,
}

/// Why a verification attempt failed.
#[derive(Debug)]
pub enum AuthFailure {
    /// The challenge is unknown, expired and swept, or already consumed.
    ChallengeNotFoundOrExpired,
    /// The challenge was requested by another peer.
    PeerMismatch,
    /// The response was rejected; the reason is carried along.
    VerificationFailed(String),
    /// The stored challenge could not be reconstructed.
    InternalReconstructionError(String),
}

/// What an `AuthFailure` says, as mathematical values.
pub enum AuthFailureModel {
    ChallengeNotFoundOrExpired,
    PeerMismatch,
    VerificationFailed(Seq<char>),
    InternalReconstructionError(Seq<char>),
}

impl View for AuthFailure {
    type V = AuthFailureModel;

    open spec fn view(&self) -> AuthFailureModel {
        match *self {
            AuthFailure::ChallengeNotFoundOrExpired => AuthFailureModel::ChallengeNotFoundOrExpired,
            AuthFailure::PeerMismatch => AuthFailureModel::PeerMismatch,
            AuthFailure::VerificationFailed(reason) => AuthFailureModel::VerificationFailed(
                reason@,
            ),
            AuthFailure::InternalReconstructionError(
                reason,
            ) => AuthFailureModel::InternalReconstructionError(reason@),
        }
    }
}

/// The body of an error reply.
#[derive(Debug)]
pub struct AuthError {
    pub error: String,
}

/// The reply to a successful verification.
#[derive(Debug)]
pub struct VerifyResponse {
    pub token: String,
    pub expires_in_seconds: i64,
    pub peer_id: String,
}

/// The reply to a token check.
#[derive(Debug)]
pub struct CheckTokenResponse {
    pub valid: bool,
    pub peer_id: Option<String>,
    pub remaining_seconds: i64,
}

/// The reason given where a response's answers do not mirror the tasks.
pub open spec fn shape_mismatch_reason() -> Seq<char> {
    "Answers do not match the tasks of the challenge"@
}

/// The HTTP status that reports a failure.
pub open spec fn status_of(failure: AuthFailureModel) -> int {
    match failure {
        AuthFailureModel::ChallengeNotFoundOrExpired => 404,
        AuthFailureModel::PeerMismatch => 403,
        AuthFailureModel::VerificationFailed(_) => 403,
        AuthFailureModel::InternalReconstructionError(_) => 500,
    }
}

/// The text that reports a failure.
pub open spec fn message_of(failure: AuthFailureModel) -> Seq<char> {
    match failure {
        AuthFailureModel::ChallengeNotFoundOrExpired => "Challenge not found or expired"@,
        AuthFailureModel::PeerMismatch => "Peer ID mismatch"@,
        AuthFailureModel::VerificationFailed(reason) => "Verification failed: "@ + reason,
        AuthFailureModel::InternalReconstructionError(reason) => "Internal error: "@ + reason,
    }
}

/// The age of an entry made at `then`, seen at `now`.
pub open spec fn age(now: i64, then: i64) -> int {
    now - then
}

/// An entry made at `then` is live at `now` under the time to live `ttl`.
pub open spec fn live(now: i64, then: i64, ttl: i64) -> bool {
    age(now, then) < ttl
}

/// `v` brought into the 64-bit range by cutting it off at the range's ends.
pub open spec fn clamped(v: int) -> int {
    if v > i64::MAX {
        i64::MAX as int
    } else if v < i64::MIN {
        i64::MIN as int
    } else {
        v
    }
}

/// The seconds a token still has: the time to live less its age, cut off at
/// the ends of the 64-bit range.
pub open spec fn remaining(now: i64, then: i64, ttl: i64) -> int {
    clamped(ttl - age(now, then))
}

/// Answer `a` is of the variant that task `t` asks for.
pub open spec fn mirrors(t: Task, a: Answer) -> bool {
    match t {
        Task::PatternCompletion { .. } => a is PatternCompletion,
        Task::TextTransformation { .. } => a is TextTransformation,
        Task::ParallelQuestions { .. } => a is ParallelQuestions,
        Task::ReadingComprehension { .. } => a is ReadingComprehension,
        Task::MetaQuestion { .. } => a is MetaQuestion,
    }
}

/// The answers are one per task, each of its task's variant, in order.
pub open spec fn answers_fit(tasks: Seq<Task>, answers: Seq<Answer>) -> bool {
    &&& tasks.len() == answers.len()
    &&& forall|i: int| 0 <= i < tasks.len() ==> mirrors(#[trigger] tasks[i], answers[i])
}

/// The key of a pending challenge: the identifier of its challenge.
pub open spec fn pending_key() -> spec_fn(PendingChallenge) -> u128 {
    |p: PendingChallenge| p.raw_challenge.challenge_id
}

/// The value of a pending challenge: the entry itself.
pub open spec fn pending_value() -> spec_fn(PendingChallenge) -> PendingChallenge {
    |p: PendingChallenge| p
}

/// The key of a token entry: the token's text.
pub open spec fn token_key() -> spec_fn(VerifiedToken) -> Seq<char> {
    |t: VerifiedToken| t.token@
}

/// The value of a token entry: what it says.
pub open spec fn token_value() -> spec_fn(VerifiedToken) -> TokenModel {
    |t: VerifiedToken| TokenModel { peer_id: t.peer_id@, verified_at: t.verified_at }
}

/// The test that a pending challenge is live at `now`.
pub open spec fn pending_live(now: i64, ttl: i64) -> spec_fn(PendingChallenge) -> bool {
    |p: PendingChallenge| live(now, p.issued_at, ttl)
}

/// The test that a token is live at `now`.
pub open spec fn token_live(now: i64, ttl: i64) -> spec_fn(TokenModel) -> bool {
    |t: TokenModel| live(now, t.verified_at, ttl)
}

/// Tells whether two texts are the same.
pub fn same_text(a: &str, b: &str) -> (r: bool)
    ensures
        r == (a@ == b@),
{
    let x = a.to_owned();
    let y = b.to_owned();
    x == y
}

/// Tells whether an entry made at `then` is live at `now`.
pub fn is_live(now: i64, then: i64, ttl: i64) -> (r: bool)
    ensures
        r == live(now, then, ttl),
{
    (now as i128 - then as i128) < ttl as i128
}

/// Tells whether an answer is of the variant that a task asks for.
pub fn answer_mirrors(task: &Task, answer: &Answer) -> (r: bool)
    ensures
        r == mirrors(*task, *answer),
{
    match task {
        Task::PatternCompletion { .. } => match answer {
            Answer::PatternCompletion { .. } => true,
            _ => false,
        },
        Task::TextTransformation { .. } => match answer {
            Answer::TextTransformation { .. } => true,
            _ => false,
        },
        Task::ParallelQuestions { .. } => match answer {
            Answer::ParallelQuestions { .. } => true,
            _ => false,
        },
        Task::ReadingComprehension { .. } => match answer {
            Answer::ReadingComprehension { .. } => true,
            _ => false,
        },
        Task::MetaQuestion { .. } => match answer {
            Answer::MetaQuestion { .. } => true,
            _ => false,
        },
    }
}

/// Tells whether a response answers every task of a challenge, in order and
/// each with an answer of the task's variant.
pub fn response_fits(challenge: &Challenge, response: &Response) -> (r: bool)
    ensures
        r == answers_fit(challenge.tasks@, response.answers@),
{
    if challenge.tasks.len() != response.answers.len() {
        return false;
    }
    let mut i: usize = 0;
    while i < challenge.tasks.len()
        invariant
            i <= challenge.tasks.len(),
            challenge.tasks@.len() == response.answers@.len(),
            forall|j: int|
                0 <= j < i ==> mirrors(#[trigger] challenge.tasks@[j], response.answers@[j]),
        decreases challenge.tasks.len() - i,
    {
        if !answer_mirrors(&challenge.tasks[i], &response.answers[i]) {
            return false;
        }
        i = i + 1;
    }
    true
}

impl AuthFailure {
    /// The HTTP status that reports this failure.
    pub fn status_code(&self) -> (r: u16)
        ensures
            r == status_of(self@),
    {
        match self {
            AuthFailure::ChallengeNotFoundOrExpired => 404,
            AuthFailure::PeerMismatch => 403,
            AuthFailure::VerificationFailed(_) => 403,
            AuthFailure::InternalReconstructionError(_) => 500,
        }
    }

    /// The text that reports this failure.
    pub fn message(&self) -> (r: String)
        ensures
            r@ == message_of(self@),
    {
        match self {
            AuthFailure::ChallengeNotFoundOrExpired => "Challenge not found or expired".to_owned(),
            AuthFailure::PeerMismatch => "Peer ID mismatch".to_owned(),
            AuthFailure::VerificationFailed(reason) => "Verification failed: ".to_owned().concat(
                reason.as_str(),
            ),
            AuthFailure::InternalReconstructionError(reason) => "Internal error: ".to_owned().concat(
                reason.as_str(),
            ),
        }
    }

    /// The body of the reply that reports this failure.
    pub fn to_body(&self) -> (r: AuthError)
        ensures
            r.error@ == message_of(self@),
    {
        AuthError { error: self.message() }
    }
}

/// Brings a wide value into the 64-bit range by cutting it off at the ends.
fn clamp_wide(v: i128) -> (r: i64)
    ensures
        r == clamped(v as int),
{
    if v > i64::MAX as i128 {
        i64::MAX
    } else if v < i64::MIN as i128 {
        i64::MIN
    } else {
        v as i64
    }
}

/// Finds the pending challenge with the given identifier.
fn find_pending(entries: &Vec<PendingChallenge>, id: u128) -> (r: Option<usize>)
    ensures
        match r {
            Some(i) => i < entries@.len() && entries@[i as int].raw_challenge.challenge_id == id,
            None => forall|j: int|
                0 <= j < entries@.len() ==> (#[trigger] entries@[j]).raw_challenge.challenge_id
                    != id,
        },
{
    let mut i: usize = 0;
    while i < entries.len()
        invariant
            i <= entries.len(),
            forall|j: int|
                0 <= j < i ==> (#[trigger] entries@[j]).raw_challenge.challenge_id != id,
        decreases entries.len() - i,
    {
        if entries[i].raw_challenge.challenge_id == id {
            return Some(i);
        }
        i = i + 1;
    }
    None
}

/// Finds the entry of the given token.
fn find_token(entries: &Vec<VerifiedToken>, token: &str) -> (r: Option<usize>)
    ensures
        match r {
            Some(i) => i < entries@.len() && entries@[i as int].token@ == token@,
            None => forall|j: int| 0 <= j < entries@.len() ==> (#[trigger] entries@[j]).token@ != token@,
        },
{
    let mut i: usize = 0;
    while i < entries.len()
        invariant
            i <= entries.len(),
            forall|j: int| 0 <= j < i ==> (#[trigger] entries@[j]).token@ != token@,
        decreases entries.len() - i,
    {
        if same_text(entries[i].token.as_str(), token) {
            return Some(i);
        }
        i = i + 1;
    }
    None
}

/// Removes the pending challenges that are no longer live.
fn sweep_pending(entries: &mut Vec<PendingChallenge>, now: i64, ttl: i64)
    requires
        distinct_keys(old(entries)@, pending_key()),
    ensures
        distinct_keys(final(entries)@, pending_key()),
        keyed(final(entries)@, pending_key(), pending_value()) == kept(
            keyed(old(entries)@, pending_key(), pending_value()),
            pending_live(now, ttl),
        ),
{
    let ghost keep = pending_live(now, ttl);
    let ghost before = keyed(old(entries)@, pending_key(), pending_value());
    let mut i: usize = 0;
    while i < entries.len()
        invariant
            i <= entries.len(),
            keep == pending_live(now, ttl),
            distinct_keys(entries@, pending_key()),
            kept(keyed(entries@, pending_key(), pending_value()), keep) == kept(before, keep),
            forall|j: int| 0 <= j < i ==> keep(#[trigger] entries@[j]),
        decreases entries.len() - i,
    {
        if is_live(now, entries[i].issued_at, ttl) {
            i = i + 1;
        } else {
            proof {
                let m = keyed(entries@, pending_key(), pending_value());
                lemma_keyed(entries@, pending_key(), pending_value());
                lemma_keyed_remove(entries@, pending_key(), pending_value(), i as int);
                let gone = pending_key()(entries@[i as int]);
                assert(m[gone] == entries@[i as int]);
                assert(kept(m.remove(gone), keep) =~= kept(m, keep));
            }
            entries.remove(i);
        }
    }
    proof {
        let m = keyed(entries@, pending_key(), pending_value());
        lemma_keyed(entries@, pending_key(), pending_value());
        assert forall|k: u128| m.contains_key(k) implies keep(m[k]) by {
            let j = choose|j: int| 0 <= j < entries@.len() && pending_key()(#[trigger] entries@[j]) == k;
            assert(m[pending_key()(entries@[j])] == entries@[j]);
        }
        assert(m =~= kept(m, keep));
    }
}

/// Removes the tokens that are no longer live.
fn sweep_tokens(entries: &mut Vec<VerifiedToken>, now: i64, ttl: i64)
    requires
        distinct_keys(old(entries)@, token_key()),
    ensures
        distinct_keys(final(entries)@, token_key()),
        keyed(final(entries)@, token_key(), token_value()) == kept(
            keyed(old(entries)@, token_key(), token_value()),
            token_live(now, ttl),
        ),
{
    let ghost keep = token_live(now, ttl);
    let ghost before = keyed(old(entries)@, token_key(), token_value());
    let mut i: usize = 0;
    while i < entries.len()
        invariant
            i <= entries.len(),
            keep == token_live(now, ttl),
            distinct_keys(entries@, token_key()),
            kept(keyed(entries@, token_key(), token_value()), keep) == kept(before, keep),
            forall|j: int| 0 <= j < i ==> keep(token_value()(#[trigger] entries@[j])),
        decreases entries.len() - i,
    {
        if is_live(now, entries[i].verified_at, ttl) {
            i = i + 1;
        } else {
            proof {
                let m = keyed(entries@, token_key(), token_value());
                lemma_keyed(entries@, token_key(), token_value());
                lemma_keyed_remove(entries@, token_key(), token_value(), i as int);
                let gone = token_key()(entries@[i as int]);
                assert(m[gone] == token_value()(entries@[i as int]));
                assert(kept(m.remove(gone), keep) =~= kept(m, keep));
            }
            entries.remove(i);
        }
    }
    proof {
        let m = keyed(entries@, token_key(), token_value());
        lemma_keyed(entries@, token_key(), token_value());
        assert forall|k: Seq<char>| m.contains_key(k) implies keep(m[k]) by {
            let j = choose|j: int| 0 <= j < entries@.len() && token_key()(#[trigger] entries@[j]) == k;
            assert(m[token_key()(entries@[j])] == token_value()(entries@[j]));
        }
        assert(m =~= kept(m, keep));
    }
}

/// The session store of a relay.
pub struct AuthState {
    pending: Vec<PendingChallenge>,
    verified: Vec<VerifiedToken>,
    challenge_ttl: i64,
    token_ttl: i64,
}

/// How a verification attempt starts, given the pending challenges: the
/// entry that goes on to the oracle, or the failure that ends the attempt.
pub open spec fn verification_start(
    pending: Map<u128, PendingChallenge>,
    response: Response,
    peer_id: Seq<char>,
) -> Result<PendingChallenge, AuthFailureModel> {
    if !pending.contains_key(response.challenge_id) {
        Err(AuthFailureModel::ChallengeNotFoundOrExpired)
    } else {
        let entry = pending[response.challenge_id];
        if entry.peer_id@ != peer_id {
            Err(AuthFailureModel::PeerMismatch)
        } else if !answers_fit(entry.raw_challenge.tasks@, response.answers@) {
            Err(AuthFailureModel::VerificationFailed(shape_mismatch_reason()))
        } else {
            Ok(entry)
        }
    }
}

/// How a verification attempt ends, given the oracle's outcome: the reply,
/// and the tokens held afterwards.
///
/// A rejection is reported with the oracle's reason and leaves the tokens
/// as they were. An acceptance is answered with a well-shaped token minted
/// for the peer at `now`, the token time to live and the peer's name, and
/// the token is held from `now` on.
pub open spec fn verification_end(
    before: Map<Seq<char>, TokenModel>,
    after: Map<Seq<char>, TokenModel>,
    token_ttl: i64,
    peer_id: Seq<char>,
    outcome: Result<Verification, String>,
    now: i64,
    r: Result<VerifyResponse, AuthFailure>,
) -> bool {
    match outcome {
        Err(reason) => {
            &&& r is Err
            &&& r->Err_0@ == AuthFailureModel::VerificationFailed(reason@)
            &&& after == before
        },
        Ok(_) => {
            &&& r is Ok
            &&& token_shaped(r->Ok_0.token@)
            &&& exists|nonce: Seq<u8>|
                nonce.len() == 16 && r->Ok_0.token@ == #[trigger] token_for(peer_id, nonce, now)
            &&& r->Ok_0.expires_in_seconds == token_ttl
            &&& r->Ok_0.peer_id@ == peer_id
            &&& after == before.insert(
                r->Ok_0.token@,
                TokenModel { peer_id, verified_at: now },
            )
        },
    }
}

/// Submits the answers of a peer to a challenge.
#[derive(Debug)]
pub struct VerifyRequest {
    pub peer_id: String,
    pub response: Response,
}

/// The store `after` is the store `before` swept at `now`: it holds the
/// entries of `before` that are live at `now`, unchanged, and nothing else.
pub open spec fn swept(before: AuthState, after: AuthState, now: i64) -> bool {
    &&& after.wf()
    &&& after.pending() == kept(before.pending(), pending_live(now, before.challenge_ttl_secs()))
    &&& after.tokens() == kept(before.tokens(), token_live(now, before.token_ttl_secs()))
    &&& after.challenge_ttl_secs() == before.challenge_ttl_secs()
    &&& after.token_ttl_secs() == before.token_ttl_secs()
}

/// The store `after` is the store `before` swept at `now` and then holding
/// the given entry under its challenge's identifier.
pub open spec fn challenge_held(
    before: AuthState,
    after: AuthState,
    entry: PendingChallenge,
    now: i64,
) -> bool {
    &&& after.wf()
    &&& entry.issued_at == now
    &&& after.pending() == kept(
        before.pending(),
        pending_live(now, before.challenge_ttl_secs()),
    ).insert(entry.raw_challenge.challenge_id, entry)
    &&& after.tokens() == kept(before.tokens(), token_live(now, before.token_ttl_secs()))
    &&& after.challenge_ttl_secs() == before.challenge_ttl_secs()
    &&& after.token_ttl_secs() == before.token_ttl_secs()
}

/// `r` is the reply to a check of `token` on `auth` at `now`.
pub open spec fn token_checked(
    auth: AuthState,
    token: Seq<char>,
    now: i64,
    r: CheckTokenResponse,
) -> bool {
    &&& r.valid == auth.token_valid(token, now)
    &&& r.valid ==> r.peer_id is Some && r.peer_id->0@ == auth.tokens()[token].peer_id
        && r.remaining_seconds == remaining(
        now,
        auth.tokens()[token].verified_at,
        auth.token_ttl_secs(),
    )
    &&& !r.valid ==> r.peer_id is None && r.remaining_seconds == 0
}

/// A result with its failure read as mathematical values.
pub open spec fn failure_view<T>(r: Result<T, AuthFailure>) -> Result<T, AuthFailureModel> {
    match r {
        Ok(v) => Ok(v),
        Err(e) => Err(e@),
    }
}

impl AuthState {
    /// The store's invariant: no challenge identifier and no token is held
    /// twice.
    pub closed spec fn wf(&self) -> bool {
        &&& distinct_keys(self.pending@, pending_key())
        &&& distinct_keys(self.verified@, token_key())
    }

    /// The pending challenges, by challenge identifier.
    pub closed spec fn pending(&self) -> Map<u128, PendingChallenge> {
        keyed(self.pending@, pending_key(), pending_value())
    }

    /// The issued tokens, by token text.
    pub closed spec fn tokens(&self) -> Map<Seq<char>, TokenModel> {
        keyed(self.verified@, token_key(), token_value())
    }

    /// The time to live of a pending challenge, in seconds.
    pub closed spec fn challenge_ttl_secs(&self) -> i64 {
        self.challenge_ttl
    }

    /// The time to live of a token, in seconds.
    pub closed spec fn token_ttl_secs(&self) -> i64 {
        self.token_ttl
    }

    /// Some live token belongs to the peer.
    pub open spec fn peer_verified(&self, peer_id: Seq<char>, now: i64) -> bool {
        exists|t: Seq<char>|
            #![trigger self.tokens()[t]]
            self.tokens().contains_key(t) && self.tokens()[t].peer_id == peer_id && live(
                now,
                self.tokens()[t].verified_at,
                self.token_ttl_secs(),
            )
    }

    /// The token is held and live.
    pub open spec fn token_valid(&self, token: Seq<char>, now: i64) -> bool {
        self.tokens().contains_key(token) && live(
            now,
            self.tokens()[token].verified_at,
            self.token_ttl_secs(),
        )
    }

    /// An empty store with the default times to live.
    pub fn new() -> (r: Self)
        ensures
            r.wf(),
            r.pending() == Map::<u128, PendingChallenge>::empty(),
            r.tokens() == Map::<Seq<char>, TokenModel>::empty(),
            r.challenge_ttl_secs() == CHALLENGE_TTL_SECS,
            r.token_ttl_secs() == TOKEN_TTL_SECS,
    {
        AuthState {
            pending: Vec::new(),
            verified: Vec::new(),
            challenge_ttl: CHALLENGE_TTL_SECS,
            token_ttl: TOKEN_TTL_SECS,
        }
    }

    /// An empty store with the given times to live, in seconds.
    pub fn with_ttls(challenge_ttl: i64, token_ttl: i64) -> (r: Self)
        ensures
            r.wf(),
            r.pending() == Map::<u128, PendingChallenge>::empty(),
            r.tokens() == Map::<Seq<char>, TokenModel>::empty(),
            r.challenge_ttl_secs() == challenge_ttl,
            r.token_ttl_secs() == token_ttl,
    {
        AuthState { pending: Vec::new(), verified: Vec::new(), challenge_ttl, token_ttl }
    }

    /// The time to live of a pending challenge, in seconds.
    pub fn challenge_ttl(&self) -> (r: i64)
        ensures
            r == self.challenge_ttl_secs(),
    {
        self.challenge_ttl
    }

    /// The time to live of a token, in seconds.
    pub fn token_ttl(&self) -> (r: i64)
        ensures
            r == self.token_ttl_secs(),
    {
        self.token_ttl
    }

    /// The number of pending challenges held, swept or not.
    pub fn pending_count(&self) -> (r: usize)
        requires
            self.wf(),
        ensures
            r == self.pending().dom().len(),
            self.pending().dom().finite(),
    {
        proof {
            lemma_keyed_len(self.pending@, pending_key(), pending_value());
        }
        self.pending.len()
    }

    /// The number of tokens held, swept or not.
    pub fn token_count(&self) -> (r: usize)
        requires
            self.wf(),
        ensures
            r == self.tokens().dom().len(),
            self.tokens().dom().finite(),
    {
        proof {
            lemma_keyed_len(self.verified@, token_key(), token_value());
        }
        self.verified.len()
    }

    /// Tells whether the peer holds a live token. The store is not changed:
    /// a token that is no longer live does not count, swept or not.
    pub fn is_peer_verified_at(&self, peer_id: &str, now: i64) -> (r: bool)
        requires
            self.wf(),
        ensures
            r == self.peer_verified(peer_id@, now),
    {
        let mut i: usize = 0;
        while i < self.verified.len()
            invariant
                self.wf(),
                i <= self.verified.len(),
                forall|j: int|
                    0 <= j < i ==> !((#[trigger] self.verified@[j]).peer_id@ == peer_id@ && live(
                        now,
                        self.verified@[j].verified_at,
                        self.token_ttl,
                    )),
            decreases self.verified.len() - i,
        {
            let entry = &self.verified[i];
            if same_text(entry.peer_id.as_str(), peer_id) && is_live(
                now,
                entry.verified_at,
                self.token_ttl,
            ) {
                proof {
                    lemma_keyed(self.verified@, token_key(), token_value());
                    let t = token_key()(self.verified@[i as int]);
                    assert(self.tokens()[t] == token_value()(self.verified@[i as int]));
                    assert(self.tokens().contains_key(t));
                }
                return true;
            }
            i = i + 1;
        }
        proof {
            lemma_keyed(self.verified@, token_key(), token_value());
            if self.peer_verified(peer_id@, now) {
                let t = choose|t: Seq<char>|
                    #![trigger self.tokens()[t]]
                    self.tokens().contains_key(t) && self.tokens()[t].peer_id == peer_id@ && live(
                        now,
                        self.tokens()[t].verified_at,
                        self.token_ttl_secs(),
                    );
                let j = choose|j: int|
                    0 <= j < self.verified@.len() && token_key()(#[trigger] self.verified@[j]) == t;
                assert(self.tokens()[token_key()(self.verified@[j])] == token_value()(
                    self.verified@[j],
                ));
            }
        }
        false
    }

    /// Looks a token up. A held, live token is reported valid, with its peer
    /// and the seconds it has left; any other token is reported invalid,
    /// with no peer and no seconds. The store is not changed.
    pub fn lookup_token(&self, token: &str, now: i64) -> (r: CheckTokenResponse)
        requires
            self.wf(),
        ensures
            token_checked(*self, token@, now, r),
    {
        proof {
            lemma_keyed(self.verified@, token_key(), token_value());
        }
        match find_token(&self.verified, token) {
            Some(i) => {
                let entry = &self.verified[i];
                proof {
                    assert(self.tokens()[token_key()(self.verified@[i as int])] == token_value()(
                        self.verified@[i as int],
                    ));
                }
                if is_live(now, entry.verified_at, self.token_ttl) {
                    let left = clamp_wide(
                        self.token_ttl as i128 - (now as i128 - entry.verified_at as i128),
                    );
                    CheckTokenResponse {
                        valid: true,
                        peer_id: Some(entry.peer_id.as_str().to_owned()),
                        remaining_seconds: left,
                    }
                } else {
                    CheckTokenResponse { valid: false, peer_id: None, remaining_seconds: 0 }
                }
            },
            None => {
                proof {
                    if self.tokens().contains_key(token@) {
                        let j = choose|j: int|
                            0 <= j < self.verified@.len() && token_key()(
                                #[trigger] self.verified@[j],
                            ) == token@;
                        assert(self.verified@[j].token@ == token@);
                    }
                }
                CheckTokenResponse { valid: false, peer_id: None, remaining_seconds: 0 }
            },
        }
    }

    /// Sweeps the store: removes the pending challenges and the tokens that
    /// are no longer live, and nothing else.
    pub fn cleanup_at(&mut self, now: i64)
        requires
            old(self).wf(),
        ensures
            swept(*old(self), *final(self), now),
    {
        sweep_pending(&mut self.pending, now, self.challenge_ttl);
        sweep_tokens(&mut self.verified, now, self.token_ttl);
    }

    /// Takes in a freshly generated challenge for a peer: sweeps the store,
    /// then holds the challenge and its expected answers under the
    /// challenge's identifier, in place of any entry with that identifier.
    /// The expected answers stay in the store.
    pub fn hold_challenge(
        &mut self,
        peer_id: String,
        challenge: Challenge,
        expected_answers: Vec<Answer>,
        now: i64,
    ) -> (id: u128)
        requires
            old(self).wf(),
        ensures
            id == challenge.challenge_id,
            challenge_held(
                *old(self),
                *final(self),
                (PendingChallenge {
                    expected_answers,
                    raw_challenge: challenge,
                    peer_id,
                    issued_at: now,
                }),
                now,
            ),
    {
        self.cleanup_at(now);
        let id = challenge.challenge_id;
        let ghost cleaned = self.pending();
        match find_pending(&self.pending, id) {
            Some(i) => {
                proof {
                    lemma_keyed_remove(self.pending@, pending_key(), pending_value(), i as int);
                }
                self.pending.remove(i);
            },
            None => {
                proof {
                    lemma_keyed(self.pending@, pending_key(), pending_value());
                    assert(cleaned.remove(id) =~= cleaned);
                }
            },
        }
        let entry = PendingChallenge {
            expected_answers,
            raw_challenge: challenge,
            peer_id,
            issued_at: now,
        };
        proof {
            lemma_keyed_push(self.pending@, pending_key(), pending_value(), entry);
            assert(cleaned.remove(id).insert(id, entry) =~= cleaned.insert(id, entry));
        }
        self.pending.push(entry);
        id
    }

    /// Starts a verification attempt: takes the pending challenge of the
    /// response out of the store, whatever comes of the attempt, and checks
    /// the attempt against it.
    ///
    /// The attempt fails with `ChallengeNotFoundOrExpired` where no such
    /// challenge is pending, with `PeerMismatch` where it was requested by
    /// another peer, and with `VerificationFailed` where the answers are not
    /// one per task and of the tasks' variants. Otherwise the entry is
    /// handed out, to be put before the oracle.
    pub fn begin_verification(&mut self, response: &Response, peer_id: &str) -> (r: Result<
        PendingChallenge,
        AuthFailure,
    >)
        requires
            old(self).wf(),
        ensures
            final(self).wf(),
            final(self).pending() == old(self).pending().remove(response.challenge_id),
            final(self).tokens() == old(self).tokens(),
            final(self).challenge_ttl_secs() == old(self).challenge_ttl_secs(),
            final(self).token_ttl_secs() == old(self).token_ttl_secs(),
            failure_view(r) == verification_start(old(self).pending(), *response, peer_id@),
    {
        let id = response.challenge_id;
        proof {
            lemma_keyed(self.pending@, pending_key(), pending_value());
        }
        match find_pending(&self.pending, id) {
            None => {
                proof {
                    if self.pending().contains_key(id) {
                        let j = choose|j: int|
                            0 <= j < self.pending@.len() && pending_key()(
                                #[trigger] self.pending@[j],
                            ) == id;
                        assert(self.pending@[j].raw_challenge.challenge_id == id);
                    }
                    assert(self.pending().remove(id) =~= self.pending());
                }
                Err(AuthFailure::ChallengeNotFoundOrExpired)
            },
            Some(i) => {
                proof {
                    lemma_keyed_remove(self.pending@, pending_key(), pending_value(), i as int);
                    assert(self.pending()[pending_key()(self.pending@[i as int])] == self.pending@[i as int]);
                }
                let entry = self.pending.remove(i);
                if !same_text(entry.peer_id.as_str(), peer_id) {
                    Err(AuthFailure::PeerMismatch)
                } else if !response_fits(&entry.raw_challenge, response) {
                    Err(
                        AuthFailure::VerificationFailed(
                            "Answers do not match the tasks of the challenge".to_owned(),
                        ),
                    )
                } else {
                    Ok(entry)
                }
            },
        }
    }

    /// Holds a token for a peer, issued at `now`, in place of any entry with
    /// the same text.
    pub fn record_token(&mut self, token: &str, peer_id: &str, now: i64)
        requires
            old(self).wf(),
        ensures
            final(self).wf(),
            final(self).pending() == old(self).pending(),
            final(self).tokens() == old(self).tokens().insert(
                token@,
                TokenModel { peer_id: peer_id@, verified_at: now },
            ),
            final(self).challenge_ttl_secs() == old(self).challenge_ttl_secs(),
            final(self).token_ttl_secs() == old(self).token_ttl_secs(),
    {
        let ghost before = self.tokens();
        match find_token(&self.verified, token) {
            Some(i) => {
                proof {
                    lemma_keyed_remove(self.verified@, token_key(), token_value(), i as int);
                }
                self.verified.remove(i);
            },
            None => {
                proof {
                    lemma_keyed(self.verified@, token_key(), token_value());
                    assert(before.remove(token@) =~= before);
                }
            },
        }
        let entry = VerifiedToken {
            token: token.to_owned(),
            peer_id: peer_id.to_owned(),
            verified_at: now,
        };
        proof {
            lemma_keyed_push(self.verified@, token_key(), token_value(), entry);
            let value = TokenModel { peer_id: peer_id@, verified_at: now };
            assert(before.remove(token@).insert(token@, value) =~= before.insert(token@, value));
        }
        self.verified.push(entry);
    }

    /// Ends a verification attempt with the oracle's outcome. Where the
    /// oracle accepted the response, a fresh token is minted for the peer,
    /// held from `now` on, and returned with the token time to live. Where
    /// it rejected the response, the attempt fails with the oracle's reason
    /// and the store is left as it is.
    pub fn complete_verification_at(
        &mut self,
        peer_id: &str,
        outcome: Result<Verification, String>,
        now: i64,
    ) -> (r: Result<VerifyResponse, AuthFailure>)
        requires
            old(self).wf(),
        ensures
            final(self).wf(),
            final(self).pending() == old(self).pending(),
            final(self).challenge_ttl_secs() == old(self).challenge_ttl_secs(),
            final(self).token_ttl_secs() == old(self).token_ttl_secs(),
            verification_end(
                old(self).tokens(),
                final(self).tokens(),
                old(self).token_ttl_secs(),
                peer_id@,
                outcome,
                now,
                r,
            ),
    {
        match outcome {
            Ok(_) => {
                let token = fresh_token(peer_id, now);
                self.record_token(token.as_str(), peer_id, now);
                Ok(
                    VerifyResponse {
                        token,
                        expires_in_seconds: self.token_ttl,
                        peer_id: peer_id.to_owned(),
                    },
                )
            },
            Err(reason) => Err(AuthFailure::VerificationFailed(reason)),
        }
    }
}

/// Takes in a freshly generated challenge for the peer of the request: the
/// store is swept, then holds the challenge and its expected answers under
/// the challenge's identifier, which is returned.
pub fn request_challenge_at(
    auth: &mut AuthState,
    req: ChallengeRequest,
    challenge: Challenge,
    expected_answers: Vec<Answer>,
    now: i64,
) -> (id: u128)
    requires
        old(auth).wf(),
    ensures
        id == challenge.challenge_id,
        challenge_held(
            *old(auth),
            *final(auth),
            (PendingChallenge {
                expected_answers,
                raw_challenge: challenge,
                peer_id: req.peer_id,
                issued_at: now,
            }),
            now,
        ),
{
    auth.hold_challenge(req.peer_id, challenge, expected_answers, now)
}

/// Verifies a response: the pending challenge is consumed, the attempt is
/// checked against it, the oracle is asked for its outcome on the entry and
/// the response, and on acceptance a token is issued.
///
/// The oracle is asked only where the attempt has not failed before, and the
/// store is not touched while it works. Every failure is final for the
/// challenge: it is consumed whatever comes of the attempt.
pub fn verify_challenge_at<F>(auth: &mut AuthState, req: &VerifyRequest, oracle: F, now: i64) -> (r:
    Result<VerifyResponse, AuthFailure>) where
    F: FnOnce(&PendingChallenge, &Response) -> Result<Verification, String>,

    requires
        old(auth).wf(),
        forall|entry: &PendingChallenge, response: &Response|
            call_requires(oracle, (entry, response)),
    ensures
        final(auth).wf(),
        final(auth).pending() == old(auth).pending().remove(req.response.challenge_id),
        final(auth).challenge_ttl_secs() == old(auth).challenge_ttl_secs(),
        final(auth).token_ttl_secs() == old(auth).token_ttl_secs(),
        match verification_start(old(auth).pending(), req.response, req.peer_id@) {
            Err(failure) => r is Err && r->Err_0@ == failure && final(auth).tokens() == old(
                auth,
            ).tokens(),
            Ok(entry) => exists|outcome: Result<Verification, String>|
                call_ensures(oracle, (&entry, &req.response), outcome) && #[trigger] verification_end(
                    old(auth).tokens(),
                    final(auth).tokens(),
                    old(auth).token_ttl_secs(),
                    req.peer_id@,
                    outcome,
                    now,
                    r,
                ),
        },
{
    match auth.begin_verification(&req.response, req.peer_id.as_str()) {
        Err(failure) => Err(failure),
        Ok(entry) => {
            let outcome = oracle(&entry, &req.response);
            let ghost seen = outcome;
            let r = auth.complete_verification_at(req.peer_id.as_str(), outcome, now);
            assert(verification_end(
                old(auth).tokens(),
                auth.tokens(),
                old(auth).token_ttl_secs(),
                req.peer_id@,
                seen,
                now,
                r,
            ));
            r
        },
    }
}

/// Answers a token check: the token of the request is looked up, and
/// reported valid only where it is held and live.
pub fn check_token_at(auth: &AuthState, req: &CheckTokenRequest, now: i64) -> (r: CheckTokenResponse)
    requires
        auth.wf(),
    ensures
        token_checked(*auth, req.token@, now, r),
{
    auth.lookup_token(req.token.as_str(), now)
}

impl AuthState {
    /// Tells whether the peer holds a token that is live at the current
    /// time, which is read from the clock.
    pub fn is_peer_verified(&self, peer_id: &str) -> (r: bool)
        requires
            self.wf(),
        ensures
            exists|now: i64| r == #[trigger] self.peer_verified(peer_id@, now),
    {
        let now = clock_seconds();
        let r = self.is_peer_verified_at(peer_id, now);
        assert(r == self.peer_verified(peer_id@, now));
        r
    }

    /// Sweeps the store at the current time, which is read from the clock.
    pub fn cleanup(&mut self)
        requires
            old(self).wf(),
        ensures
            exists|now: i64| #[trigger] swept(*old(self), *final(self), now),
    {
        let now = clock_seconds();
        self.cleanup_at(now);
        assert(swept(*old(self), *self, now));
    }

    /// Ends a verification attempt with the oracle's outcome at the current
    /// time, which is read from the clock.
    pub fn complete_verification(
        &mut self,
        peer_id: &str,
        outcome: Result<Verification, String>,
    ) -> (r: Result<VerifyResponse, AuthFailure>)
        requires
            old(self).wf(),
        ensures
            final(self).wf(),
            final(self).pending() == old(self).pending(),
            final(self).challenge_ttl_secs() == old(self).challenge_ttl_secs(),
            final(self).token_ttl_secs() == old(self).token_ttl_secs(),
            exists|now: i64| #[trigger]
                verification_end(
                    old(self).tokens(),
                    final(self).tokens(),
                    old(self).token_ttl_secs(),
                    peer_id@,
                    outcome,
                    now,
                    r,
                ),
    {
        let now = clock_seconds();
        let ghost seen = outcome;
        let r = self.complete_verification_at(peer_id, outcome, now);
        assert(verification_end(
            old(self).tokens(),
            self.tokens(),
            old(self).token_ttl_secs(),
            peer_id@,
            seen,
            now,
            r,
        ));
        r
    }
}

/// Takes in a freshly generated challenge for the peer of the request, at
/// the current time, which is read from the clock.
pub fn request_challenge(
    auth: &mut AuthState,
    req: ChallengeRequest,
    challenge: Challenge,
    expected_answers: Vec<Answer>,
) -> (id: u128)
    requires
        old(auth).wf(),
    ensures
        id == challenge.challenge_id,
        exists|now: i64| #[trigger]
            challenge_held(
                *old(auth),
                *final(auth),
                (PendingChallenge {
                    expected_answers,
                    raw_challenge: challenge,
                    peer_id: req.peer_id,
                    issued_at: now,
                }),
                now,
            ),
{
    let now = clock_seconds();
    let ghost entry = PendingChallenge {
        expected_answers,
        raw_challenge: challenge,
        peer_id: req.peer_id,
        issued_at: now,
    };
    let id = request_challenge_at(auth, req, challenge, expected_answers, now);
    assert(challenge_held(*old(auth), *auth, entry, now));
    id
}

/// Verifies a response at the current time, which is read from the clock
/// once the oracle has spoken.
pub fn verify_challenge<F>(auth: &mut AuthState, req: &VerifyRequest, oracle: F) -> (r: Result<
    VerifyResponse,
    AuthFailure,
>) where F: FnOnce(&PendingChallenge, &Response) -> Result<Verification, String>
    requires
        old(auth).wf(),
        forall|entry: &PendingChallenge, response: &Response|
            call_requires(oracle, (entry, response)),
    ensures
        final(auth).wf(),
        final(auth).pending() == old(auth).pending().remove(req.response.challenge_id),
        final(auth).challenge_ttl_secs() == old(auth).challenge_ttl_secs(),
        final(auth).token_ttl_secs() == old(auth).token_ttl_secs(),
        match verification_start(old(auth).pending(), req.response, req.peer_id@) {
            Err(failure) => r is Err && r->Err_0@ == failure && final(auth).tokens() == old(
                auth,
            ).tokens(),
            Ok(entry) => exists|outcome: Result<Verification, String>, now: i64|
                call_ensures(oracle, (&entry, &req.response), outcome) && #[trigger] verification_end(
                    old(auth).tokens(),
                    final(auth).tokens(),
                    old(auth).token_ttl_secs(),
                    req.peer_id@,
                    outcome,
                    now,
                    r,
                ),
        },
{
    match auth.begin_verification(&req.response, req.peer_id.as_str()) {
        Err(failure) => Err(failure),
        Ok(entry) => {
            let outcome = oracle(&entry, &req.response);
            let ghost seen = outcome;
            let now = clock_seconds();
            let r = auth.complete_verification_at(req.peer_id.as_str(), outcome, now);
            assert(verification_end(
                old(auth).tokens(),
                auth.tokens(),
                old(auth).token_ttl_secs(),
                req.peer_id@,
                seen,
                now,
                r,
            ));
            r
        },
    }
}

/// Answers a token check at the current time, which is read from the clock.
pub fn check_token(auth: &AuthState, req: &CheckTokenRequest) -> (r: CheckTokenResponse)
    requires
        auth.wf(),
    ensures
        exists|now: i64| #[trigger] token_checked(*auth, req.token@, now, r),
{
    let now = clock_seconds();
    let r = check_token_at(auth, req, now);
    assert(token_checked(*auth, req.token@, now, r));
    r
}

/// A challenge is single-use: once a verification attempt has taken it out
/// of the store, a further attempt on the same identifier finds nothing.
pub proof fn law_consumed_challenge_is_gone(
    pending: Map<u128, PendingChallenge>,
    response: Response,
    peer_id: Seq<char>,
)
    ensures
        verification_start(pending.remove(response.challenge_id), response, peer_id) == Err::<
            PendingChallenge,
            AuthFailureModel,
        >(AuthFailureModel::ChallengeNotFoundOrExpired),
{
}

/// An attempt by a peer other than the one that requested the challenge
/// fails with `PeerMismatch`, whatever the answers are.
pub proof fn law_other_peer_is_refused(
    pending: Map<u128, PendingChallenge>,
    response: Response,
    peer_id: Seq<char>,
)
    requires
        pending.contains_key(response.challenge_id),
        pending[response.challenge_id].peer_id@ != peer_id,
    ensures
        verification_start(pending, response, peer_id) == Err::<PendingChallenge, AuthFailureModel>(
            AuthFailureModel::PeerMismatch,
        ),
{
}

/// Two challenges with different identifiers are pending side by side, and
/// consuming either leaves the other pending: here the first is requested at
/// `first_now`, the second at `second_now` while the first is still live.
pub proof fn law_challenges_are_independent(
    pending: Map<u128, PendingChallenge>,
    ttl: i64,
    first: PendingChallenge,
    first_now: i64,
    second: PendingChallenge,
    second_now: i64,
)
    requires
        first.raw_challenge.challenge_id != second.raw_challenge.challenge_id,
        first.issued_at == first_now,
        second.issued_at == second_now,
        live(second_now, first_now, ttl),
    ensures
        ({
            let a = first.raw_challenge.challenge_id;
            let b = second.raw_challenge.challenge_id;
            let after_first = kept(pending, pending_live(first_now, ttl)).insert(a, first);
            let after_both = kept(after_first, pending_live(second_now, ttl)).insert(b, second);
            &&& after_both.contains_key(a) && after_both[a] == first
            &&& after_both.contains_key(b) && after_both[b] == second
            &&& after_both.remove(a).contains_key(b) && !after_both.remove(a).contains_key(a)
            &&& after_both.remove(b).contains_key(a) && !after_both.remove(b).contains_key(b)
        }),
{
}

/// A sweep removes exactly the entries that are no longer live: an entry is
/// held after the sweep if and only if it was held before and is live, and
/// it is held unchanged.
pub proof fn law_sweep_keeps_live_entries<K, V>(m: Map<K, V>, keep: spec_fn(V) -> bool, k: K)
    ensures
        kept(m, keep).contains_key(k) <==> m.contains_key(k) && keep(m[k]),
        kept(m, keep).contains_key(k) ==> kept(m, keep)[k] == m[k],
{
}

impl AuthState {
    /// A token is valid from the moment it is issued, for a store whose
    /// token time to live is positive: it is reported valid, for its peer,
    /// with the whole time to live remaining, and its peer counts as
    /// verified.
    pub proof fn law_fresh_token_is_valid(self, token: Seq<char>, peer_id: Seq<char>, now: i64)
        requires
            self.token_ttl_secs() > 0,
            self.tokens().contains_key(token),
            self.tokens()[token] == (TokenModel { peer_id, verified_at: now }),
        ensures
            self.token_valid(token, now),
            self.peer_verified(peer_id, now),
            remaining(now, self.tokens()[token].verified_at, self.token_ttl_secs())
                == self.token_ttl_secs(),
    {
    }

    /// Once the time to live has passed, a token is invalid whether or not
    /// the store has been swept, and a peer all of whose tokens are that old
    /// no longer counts as verified.
    pub proof fn law_old_token_is_invalid(self, token: Seq<char>, peer_id: Seq<char>, now: i64)
        requires
            forall|t: Seq<char>|
                #![trigger self.tokens()[t]]
                self.tokens().contains_key(t) && self.tokens()[t].peer_id == peer_id ==> age(
                    now,
                    self.tokens()[t].verified_at,
                ) >= self.token_ttl_secs(),
        ensures
            !self.peer_verified(peer_id, now),
            self.tokens().contains_key(token) && self.tokens()[token].peer_id == peer_id
                ==> !self.token_valid(token, now),
    {
    }
}

} // verus!
