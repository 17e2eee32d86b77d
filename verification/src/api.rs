//! The agent's HTTP API: the bodies of its requests and replies, and the
//! rules its handlers apply to them.

use crate::text::{contains, contains_seq, to_chars};
use vstd::prelude::*;

verus! {

/// Asks the agent to authenticate with a relay.
#[derive(Debug)]
pub struct AuthenticateRequest {
    /// The relay's HTTP auth URL.
    pub auth_url: String,
}

/// The token a relay issued to the agent.
#[derive(Debug)]
pub struct AuthenticateResponse {
    pub token: String,
    pub expires_in_seconds: i64,
    pub peer_id: String,
}

#[derive(Debug)]
pub struct CommunityInfo {
    pub relay_peer_id: String,
    pub relay_address: String,
    pub community_name: Option<String>,
    pub joined_at: i64,
    pub last_sync_at: Option<i64>,
}

#[derive(Debug)]
pub struct BoardInfo {
    pub board_id: String,
    pub relay_peer_id: String,
    pub name: String,
    pub description: Option<String>,
    pub is_default: bool,
}

#[derive(Debug)]
pub struct BoardPostInfo {
    pub post_id: String,
    pub board_id: String,
    pub relay_peer_id: String,
    pub author_peer_id: String,
    pub author_display_name: Option<String>,
    pub content_type: String,
    pub content_text: Option<String>,
    pub lamport_clock: i64,
    pub created_at: i64,
}

#[derive(Debug)]
pub struct JoinCommunityRequest {
    pub relay_address: String,
}

#[derive(Debug)]
pub struct SubmitPostRequest {
    pub content_text: String,
}

#[derive(Debug)]
pub struct BoardPostsQuery {
    pub limit: Option<i64>,
    pub before: Option<i64>,
}

#[derive(Debug)]
pub struct DeleteBoardPostRequest {
    pub relay_peer_id: String,
}

#[derive(Debug)]
pub struct ContactInfo {
    pub id: i64,
    pub peer_id: String,
    pub display_name: String,
    pub avatar_hash: Option<String>,
    pub bio: Option<String>,
    pub is_blocked: bool,
    pub trust_level: i32,
    pub last_seen_at: Option<i64>,
    pub added_at: i64,
}

#[derive(Debug)]
pub struct AddContactRequest {
    pub peer_id: String,
    pub public_key: Vec<u8>,
    pub x25519_public: Vec<u8>,
    pub display_name: String,
    pub avatar_hash: Option<String>,
    pub bio: Option<String>,
}

#[derive(Debug)]
pub struct AddContactFromStringRequest {
    pub contact_string: String,
}

#[derive(Debug)]
pub struct IdentityStatusResponse {
    pub has_identity: bool,
    pub is_unlocked: bool,
}

#[derive(Debug)]
pub struct UnlockRequest {
    pub passphrase: String,
}

#[derive(Debug)]
pub struct UpdateDisplayNameRequest {
    pub display_name: String,
}

#[derive(Debug)]
pub struct UpdateBioRequest {
    pub bio: Option<String>,
}

#[derive(Debug)]
pub struct SendMessageRequest {
    pub peer_id: String,
    pub content: String,
    pub content_type: Option<String>,
    pub reply_to: Option<String>,
}

#[derive(Debug)]
pub struct SendMessageResult {
    pub message_id: String,
    pub conversation_id: String,
    pub sent_at: i64,
}

#[derive(Debug)]
pub struct MessageInfo {
    pub message_id: String,
    pub conversation_id: String,
    pub sender_peer_id: String,
    pub recipient_peer_id: String,
    pub content: String,
    pub content_type: String,
    pub reply_to_message_id: Option<String>,
    pub sent_at: i64,
    pub delivered_at: Option<i64>,
    pub read_at: Option<i64>,
    pub status: String,
    pub is_outgoing: bool,
}

#[derive(Debug)]
pub struct ConversationInfo {
    pub conversation_id: String,
    pub peer_id: String,
    pub last_message_at: i64,
    pub unread_count: i64,
}

#[derive(Debug)]
pub struct MessagesQuery {
    pub limit: Option<i64>,
    pub before: Option<i64>,
}

#[derive(Debug)]
pub struct ConnectRequest {
    pub multiaddr: String,
}

#[derive(Debug)]
pub struct RelayRequest {
    pub multiaddr: String,
}

#[derive(Debug)]
pub struct GrantPermissionRequest {
    pub peer_id: String,
    pub capability: String,
    pub expires_in_seconds: Option<i64>,
}

#[derive(Debug)]
pub struct GrantAllRequest {
    pub peer_id: String,
}

#[derive(Debug)]
pub struct GrantResult {
    pub grant_id: String,
    pub capability: String,
    pub subject_peer_id: String,
    pub issued_at: i64,
    pub expires_at: Option<i64>,
}

/// Asks a relay for a challenge.
#[derive(Debug)]
pub struct ChallengeRequest {
    pub peer_id: String,
}

/// Asks a relay whether a token is still valid.
#[derive(Debug)]
pub struct CheckTokenRequest {
    pub token: String,
}

/// The number of entries a listing returns where the query names none.
pub const DEFAULT_PAGE_LIMIT: i64 = 50;

/// The limit of a listing: the one the query names, else the default.
pub open spec fn limit_or_default(limit: Option<i64>) -> i64 {
    match limit {
        Some(n) => n,
        None => DEFAULT_PAGE_LIMIT,
    }
}

impl MessagesQuery {
    /// The number of messages to return.
    pub fn effective_limit(&self) -> (r: i64)
        ensures
            r == limit_or_default(self.limit),
    {
        match self.limit {
            Some(n) => n,
            None => DEFAULT_PAGE_LIMIT,
        }
    }
}

impl BoardPostsQuery {
    /// The number of posts to return.
    pub fn effective_limit(&self) -> (r: i64)
        ensures
            r == limit_or_default(self.limit),
    {
        match self.limit {
            Some(n) => n,
            None => DEFAULT_PAGE_LIMIT,
        }
    }
}

impl SendMessageRequest {
    /// The content type of the message: the one the request names, else
    /// `text`.
    pub fn effective_content_type(&self) -> (r: String)
        ensures
            r@ == (match self.content_type {
                Some(t) => t@,
                None => "text"@,
            }),
    {
        match &self.content_type {
            Some(t) => t.as_str().to_owned(),
            None => "text".to_owned(),
        }
    }
}

/// The sum of the unread counts of the first `n` conversations.
pub open spec fn unread_sum(conversations: Seq<ConversationInfo>, n: int) -> int
    decreases n,
{
    if n <= 0 {
        0
    } else {
        unread_sum(conversations, n - 1) + conversations[n - 1].unread_count
    }
}

/// Every running total of the unread counts is a 64-bit integer.
pub open spec fn unread_sums_fit(conversations: Seq<ConversationInfo>) -> bool {
    forall|n: int|
        0 <= n <= conversations.len() ==> i64::MIN <= #[trigger] unread_sum(conversations, n)
            <= i64::MAX
}

/// The total number of unread messages over all conversations, or `None`
/// where some running total is not a 64-bit integer.
pub fn total_unread(conversations: &Vec<ConversationInfo>) -> (r: Option<i64>)
    ensures
        r is Some <==> unread_sums_fit(conversations@),
        r matches Some(total) ==> total == unread_sum(
            conversations@,
            conversations@.len() as int,
        ),
{
    let mut total: i64 = 0;
    let mut i: usize = 0;
    while i < conversations.len()
        invariant
            i <= conversations.len(),
            total == unread_sum(conversations@, i as int),
            forall|n: int|
                0 <= n <= i ==> i64::MIN <= #[trigger] unread_sum(conversations@, n) <= i64::MAX,
        decreases conversations.len() - i,
    {
        match total.checked_add(conversations[i].unread_count) {
            Some(next) => {
                total = next;
            },
            None => {
                assert(!(i64::MIN <= unread_sum(conversations@, i + 1) <= i64::MAX));
                return None;
            },
        }
        i = i + 1;
    }
    Some(total)
}

/// The kinds of error the agent's services report.
#[derive(Clone, Copy, Debug, PartialEq, Eq, Structural)]
pub enum AppErrorKind {
    NotFound,
    Validation,
    InvalidData,
    PermissionDenied,
    Unauthorized,
    AlreadyExists,
    Identity,
    Network,
    Other,
}

/// An error of the agent's services, as the API reports it.
#[derive(Debug)]
pub struct ApiError {
    pub kind: AppErrorKind,
    pub message: String,
}

/// The HTTP status that reports an error of the given kind and message.
///
/// An identity error is reported as forbidden where its message speaks of
/// the identity being locked, else as unauthorized where it speaks of a
/// passphrase, else as an internal error.
pub open spec fn error_status(kind: AppErrorKind, message: Seq<char>) -> int {
    match kind {
        AppErrorKind::NotFound => 404,
        AppErrorKind::Validation => 400,
        AppErrorKind::InvalidData => 400,
        AppErrorKind::PermissionDenied => 403,
        AppErrorKind::Unauthorized => 401,
        AppErrorKind::AlreadyExists => 409,
        AppErrorKind::Identity => if contains_seq(message, "locked"@) {
            403
        } else if contains_seq(message, "passphrase"@) || contains_seq(message, "Passphrase"@) {
            401
        } else {
            500
        },
        AppErrorKind::Network => 502,
        AppErrorKind::Other => 500,
    }
}

impl ApiError {
    /// The HTTP status that reports this error.
    pub fn status_code(&self) -> (r: u16)
        ensures
            r == error_status(self.kind, self.message@),
    {
        match self.kind {
            AppErrorKind::NotFound => 404,
            AppErrorKind::Validation => 400,
            AppErrorKind::InvalidData => 400,
            AppErrorKind::PermissionDenied => 403,
            AppErrorKind::Unauthorized => 401,
            AppErrorKind::AlreadyExists => 409,
            AppErrorKind::Identity => {
                let message = to_chars(self.message.as_str());
                if contains(&message, &to_chars("locked")) {
                    403
                } else if contains(&message, &to_chars("passphrase")) || contains(
                    &message,
                    &to_chars("Passphrase"),
                ) {
                    401
                } else {
                    500
                }
            },
            AppErrorKind::Network => 502,
            AppErrorKind::Other => 500,
        }
    }
}

} // verus!
