use vstd::prelude::*;
use vstd::utf8::encode_utf8;

use crate::auth::AuthUser;
use crate::queue::Publication;

verus! {

/// A UTC date and time without zone: seconds since the epoch and the
/// nanoseconds past that second (over a billion only in a leap second).
#[derive(Clone, Copy)]
pub struct Timestamp {
    pub secs: i64,
    pub nanos: u32,
}

/// An account as kept by the relational store.
pub struct StoredAccount {
    pub uid: String,
    pub created_at: Option<Timestamp>,
    pub dapp_share: String,
    pub pubkey: String,
    pub name: Option<String>,
    pub email: Option<String>,
    pub photo_url: Option<String>,
    pub delete_request_at: Option<Timestamp>,
    pub deleted_at: Option<Timestamp>,
}

/// How a handler answers.
pub enum Reply {
    /// 200 with no body.
    Success,
    /// 200 with the account as JSON.
    SuccessAccount(StoredAccount),
    /// 201 with no body.
    Created,
    /// 404 with no body.
    NotFound,
    /// 400 with no body.
    BadRequest,
    /// The request failed; the text describes the failure.
    Failed(String),
}

/// The message queues a handler publishes on.
pub enum Queue {
    /// Announces new users.
    NewUser,
    /// Carries deletion requests, delivered after their delay.
    DeleteAccountRequest,
}

/// What a handler asks its surroundings to do next.
pub enum Action {
    /// Take a connection from the relational store's pool.
    Connect,
    /// Look the account `uid` up.
    ReadAccount { uid: String },
    /// Encrypt `plaintext` with `key` and `nonce`.
    Encrypt { key: Vec<u8>, nonce: Vec<u8>, plaintext: Vec<u8> },
    /// Decrypt `ciphertext` with `key` and `nonce`.
    Decrypt { key: Vec<u8>, nonce: Vec<u8>, ciphertext: Vec<u8> },
    /// Insert or replace an account.
    UpsertAccount(StoredAccount),
    /// Set (or clear) the time at which the deletion of `uid` was requested.
    SetDeleteRequestAt { uid: String, at: Option<Timestamp> },
    /// Publish a message on the given queue.
    Publish { queue: Queue, publication: Publication },
    /// Answer the request; nothing follows.
    Respond(Reply),
}

/// What came of the last action.
pub enum Event {
    Connected(Result<(), String>),
    AccountRead(Option<StoredAccount>),
    Encrypted(Result<String, String>),
    Decrypted(Result<String, String>),
    Written(Result<(), String>),
    Published(Result<(), String>),
}

/// The UTF-8 bytes of a string.
pub open spec fn bytes_of(s: String) -> Seq<u8> {
    encode_utf8(s@)
}

/// The UTF-8 bytes of a string.
pub fn string_bytes(s: &String) -> (b: Vec<u8>)
    ensures
        b@ == bytes_of(*s),
{
    vstd::slice::slice_to_vec(s.as_str().as_bytes())
}

/// The first `n` bytes.
pub fn byte_prefix(b: &[u8], n: usize) -> (p: Vec<u8>)
    requires
        n <= b@.len(),
    ensures
        p@ == b@.subrange(0, n as int),
{
    let mut p: Vec<u8> = Vec::new();
    let mut i: usize = 0;
    while i < n
        invariant
            i <= n <= b@.len(),
            p@ == b@.subrange(0, i as int),
        decreases n - i,
    {
        p.push(b[i]);
        proof {
            assert(b@.subrange(0, i + 1) =~= b@.subrange(0, i as int).push(b@[i as int]));
        }
        i = i + 1;
    }
    p
}


/// What a deletion endpoint decides once the account has been looked up.
pub enum DeletionDecision {
    NotFound,
    BadRequest,
    SetDeleteRequestAt(Option<Timestamp>),
}

/// The pending deletion request of the account found, if one was found.
pub open spec fn pending_of(found: Option<StoredAccount>) -> Option<Option<Timestamp>> {
    match found {
        Some(account) => Some(account.delete_request_at),
        None => None,
    }
}

/// Requesting deletion: an unknown account is not found; an account whose
/// deletion is already requested is a bad request; otherwise the request is
/// recorded at `now`.
pub open spec fn request_deletion_decision(found: Option<Option<Timestamp>>, now: Timestamp)
    -> DeletionDecision {
    match found {
        None => DeletionDecision::NotFound,
        Some(Some(_)) => DeletionDecision::BadRequest,
        Some(None) => DeletionDecision::SetDeleteRequestAt(Some(now)),
    }
}

/// Cancelling deletion: an unknown account is not found; an account without
/// a pending request is a bad request; otherwise the request is cleared.
pub open spec fn cancel_deletion_decision(found: Option<Option<Timestamp>>) -> DeletionDecision {
    match found {
        None => DeletionDecision::NotFound,
        Some(None) => DeletionDecision::BadRequest,
        Some(Some(_)) => DeletionDecision::SetDeleteRequestAt(None),
    }
}

/// The pending state an account is left in by a decision that was carried out.
pub open spec fn pending_after(before: Option<Timestamp>, d: DeletionDecision) -> Option<Timestamp> {
    match d {
        DeletionDecision::SetDeleteRequestAt(at) => at,
        _ => before,
    }
}

/// Cancelling undoes requesting: on an account with no pending request, a
/// request records `now`, and a cancellation then clears it, leaving the
/// account as it was.
pub proof fn lemma_cancel_undoes_request(now: Timestamp)
    ensures
        request_deletion_decision(Some(None), now) == DeletionDecision::SetDeleteRequestAt(Some(now)),
        cancel_deletion_decision(Some(pending_after(None, request_deletion_decision(Some(None), now))))
            == DeletionDecision::SetDeleteRequestAt(None),
        pending_after(
            pending_after(None, request_deletion_decision(Some(None), now)),
            cancel_deletion_decision(Some(pending_after(None, request_deletion_decision(Some(None), now)))),
        ) == None::<Timestamp>,
{
}

/// A second request after a recorded one is refused and keeps the time of
/// the first: the pending request stays `first`.
pub proof fn lemma_second_request_keeps_first(first: Timestamp, second: Timestamp)
    ensures
        ({
            let after_first = pending_after(None, request_deletion_decision(Some(None), first));
            let d = request_deletion_decision(Some(after_first), second);
            &&& after_first == Some(first)
            &&& d == DeletionDecision::BadRequest
            &&& pending_after(after_first, d) == Some(first)
        }),
{
}

/// Neither endpoint acts twice: requesting deletion again while a request is
/// pending is refused, and so is cancelling again once it was cleared; a
/// refusal leaves the account unchanged.
pub proof fn lemma_deletion_requests_do_not_repeat(pending: Option<Timestamp>, now: Timestamp)
    ensures
        pending is Some ==> request_deletion_decision(Some(pending), now) == DeletionDecision::BadRequest,
        pending is None ==> cancel_deletion_decision(Some(pending)) == DeletionDecision::BadRequest,
        pending_after(pending, DeletionDecision::BadRequest) == pending,
        pending_after(pending, DeletionDecision::NotFound) == pending,
{
}


/// A copy of an optional string.
pub fn copy_optional(o: &Option<String>) -> (r: Option<String>)
    ensures
        r == *o,
{
    match o {
        Some(s) => Some(s.clone()),
        None => None,
    }
}

} // verus!
