use vstd::prelude::*;

use crate::auth::{AuthData, AuthUser};

use super::flow::{
    byte_prefix, bytes_of, copy_optional, string_bytes, Action, Event, Queue, Reply,
    StoredAccount,
};
use crate::queue::{borsh_string, new_user_publication, QueueRoute};

verus! {

/// The body of an account creation: the client's share of the wallet
/// secret, and the wallet's public key.
pub struct Body {
    pub dapp_share: String,
    pub pubkey: String,
}

/// Where a creation stands.
pub enum Phase {
    Connecting,
    Reading,
    Encrypting,
    Upserting,
    Publishing,
    Done,
}

impl Phase {
    /// Steps left before the reply, at most.
    pub open spec fn rank(self) -> nat {
        match self {
            Phase::Connecting => 5,
            Phase::Reading => 4,
            Phase::Encrypting => 3,
            Phase::Upserting => 2,
            Phase::Publishing => 1,
            Phase::Done => 0,
        }
    }
}

/// Creating the signed-in user's account, unless it exists already.
pub struct CreateAccount {
    pub user: AuthUser,
    pub body: Body,
    pub enc_key: Vec<u8>,
    pub route: QueueRoute,
    pub phase: Phase,
}

/// Starts a creation for the signed-in user from the request body; the share
/// is encrypted with `enc_key` and the new user announced on `route`. First
/// take a connection.
pub fn exec(auth: AuthData, body: Body, enc_key: Vec<u8>, route: QueueRoute) -> (r: (
    CreateAccount,
    Action,
))
    ensures
        r.0.user == auth.user,
        r.0.body == body,
        r.0.enc_key == enc_key,
        r.0.route == route,
        r.0.phase is Connecting,
        r.1 is Connect,
{
    (CreateAccount { user: auth.user, body, enc_key, route, phase: Phase::Connecting }, Action::Connect)
}

/// The account created for `user` from `body`, with the encrypted share.
pub open spec fn is_new_account(a: StoredAccount, user: AuthUser, body: Body, share: String) -> bool {
    &&& a.uid@ == user.local_id@
    &&& a.created_at is None
    &&& a.dapp_share == share
    &&& a.pubkey@ == body.pubkey@
    &&& a.name == user.display_name
    &&& a.email == user.email
    &&& a.photo_url == user.photo_url
    &&& a.delete_request_at is None
    &&& a.deleted_at is None
}

/// An account created from a profile carries that profile: its uid is the
/// user's id, its name, email and photo URL are the user's, its public key is
/// the body's and its share is the encrypted one; it is new, with no creation
/// time, no pending deletion and no deletion.
pub proof fn lemma_new_account_carries_profile(
    a: StoredAccount,
    user: AuthUser,
    body: Body,
    share: String,
)
    requires
        is_new_account(a, user, body, share),
    ensures
        a.uid@ == user.local_id@,
        a.name == user.display_name,
        a.email == user.email,
        a.photo_url == user.photo_url,
        a.pubkey@ == body.pubkey@,
        a.dapp_share == share,
        a.created_at is None && a.delete_request_at is None && a.deleted_at is None,
{
}

impl CreateAccount {
    /// The event answers the action asked for last.
    pub open spec fn expects(&self, event: &Event) -> bool {
        match self.phase {
            Phase::Connecting => event is Connected,
            Phase::Reading => event is AccountRead,
            Phase::Encrypting => event is Encrypted,
            Phase::Upserting => event is Written,
            Phase::Publishing => event is Published,
            Phase::Done => false,
        }
    }

    /// The inputs that the next action is made of are long enough: a new
    /// account needs a key of at least 32 bytes and a public key of at least
    /// 12 bytes, and its public key must fit the message length prefix.
    pub open spec fn inputs_fit(&self, event: &Event) -> bool {
        &&& (self.phase is Reading && event matches Event::AccountRead(None)) ==> (self.enc_key@.len()
            >= 32 && bytes_of(self.body.pubkey).len() >= 12)
        &&& (self.phase is Upserting && event matches Event::Written(Ok(_))) ==> bytes_of(
            self.body.pubkey,
        ).len() <= u32::MAX
    }

    /// Takes the outcome of the last action and says what to do next.
    /// A failed step fails the request. An existing account is answered as
    /// it is, with nothing written. Otherwise the share is encrypted with the
    /// first 32 bytes of the key and the first 12 bytes of the public key as
    /// nonce, the new account is stored, the new user's public key is
    /// published on the route, and the answer is 201.
    pub fn step(self, event: Event) -> (r: (CreateAccount, Action))
        requires
            self.expects(&event),
            self.inputs_fit(&event),
        ensures
            r.0.user == self.user,
            r.0.body == self.body,
            r.0.enc_key == self.enc_key,
            r.0.route == self.route,
            r.0.phase.rank() < self.phase.rank(),
            r.0.phase is Done <==> r.1 is Respond,
            match (self.phase, event) {
                (Phase::Connecting, Event::Connected(Err(e))) => r.1 == Action::Respond(
                    Reply::Failed(e),
                ),
                (Phase::Connecting, Event::Connected(Ok(_))) => r.0.phase is Reading && (
                r.1 matches Action::ReadAccount { uid } && uid@ == self.user.local_id@),
                (Phase::Reading, Event::AccountRead(Some(account))) => r.1 == Action::Respond(
                    Reply::SuccessAccount(account),
                ),
                (Phase::Reading, Event::AccountRead(None)) => r.0.phase is Encrypting && (
                r.1 matches Action::Encrypt { key, nonce, plaintext } && key@
                    == self.enc_key@.subrange(0, 32) && nonce@ == bytes_of(
                    self.body.pubkey,
                ).subrange(0, 12) && plaintext@ == bytes_of(self.body.dapp_share)),
                (Phase::Encrypting, Event::Encrypted(Err(e))) => r.1 == Action::Respond(
                    Reply::Failed(e),
                ),
                (Phase::Encrypting, Event::Encrypted(Ok(share))) => r.0.phase is Upserting && (
                r.1 matches Action::UpsertAccount(a) && is_new_account(
                    a,
                    self.user,
                    self.body,
                    share,
                ) && a.uid@ == self.user.local_id@ && a.name == self.user.display_name && a.email
                    == self.user.email && a.photo_url == self.user.photo_url && a.pubkey@
                    == self.body.pubkey@ && a.dapp_share == share),
                (Phase::Upserting, Event::Written(Err(e))) => r.1 == Action::Respond(
                    Reply::Failed(e),
                ),
                (Phase::Upserting, Event::Written(Ok(_))) => r.0.phase is Publishing && (
                r.1 matches Action::Publish { queue, publication: p } && queue is NewUser
                    && p.exchange_name@ == self.route.exchange_name@
                    && p.routing_key@ == self.route.routing_key@ && p.payload@ == borsh_string(
                    self.body.pubkey@,
                )),
                (Phase::Publishing, Event::Published(Err(e))) => r.1 == Action::Respond(
                    Reply::Failed(e),
                ),
                (Phase::Publishing, Event::Published(Ok(_))) => r.1 == Action::Respond(
                    Reply::Created,
                ),
                _ => false,
            },
    {
        let user = self.user;
        let body = self.body;
        let enc_key = self.enc_key;
        let route = self.route;
        match (self.phase, event) {
            (Phase::Connecting, Event::Connected(Err(e))) => (
                CreateAccount { user, body, enc_key, route, phase: Phase::Done },
                Action::Respond(Reply::Failed(e)),
            ),
            (Phase::Connecting, Event::Connected(Ok(_))) => {
                let read = Action::ReadAccount { uid: user.local_id.clone() };
                (CreateAccount { user, body, enc_key, route, phase: Phase::Reading }, read)
            },
            (Phase::Reading, Event::AccountRead(Some(account))) => (
                CreateAccount { user, body, enc_key, route, phase: Phase::Done },
                Action::Respond(Reply::SuccessAccount(account)),
            ),
            (Phase::Reading, Event::AccountRead(None)) => {
                let pubkey_bytes = string_bytes(&body.pubkey);
                let encrypt = Action::Encrypt {
                    key: byte_prefix(enc_key.as_slice(), 32),
                    nonce: byte_prefix(pubkey_bytes.as_slice(), 12),
                    plaintext: string_bytes(&body.dapp_share),
                };
                (CreateAccount { user, body, enc_key, route, phase: Phase::Encrypting }, encrypt)
            },
            (Phase::Encrypting, Event::Encrypted(Err(e))) => (
                CreateAccount { user, body, enc_key, route, phase: Phase::Done },
                Action::Respond(Reply::Failed(e)),
            ),
            (Phase::Encrypting, Event::Encrypted(Ok(share))) => {
                let account = StoredAccount {
                    uid: user.local_id.clone(),
                    created_at: None,
                    dapp_share: share,
                    pubkey: body.pubkey.clone(),
                    name: copy_optional(&user.display_name),
                    email: copy_optional(&user.email),
                    photo_url: copy_optional(&user.photo_url),
                    delete_request_at: None,
                    deleted_at: None,
                };
                (
                    CreateAccount { user, body, enc_key, route, phase: Phase::Upserting },
                    Action::UpsertAccount(account),
                )
            },
            (Phase::Upserting, Event::Written(Err(e))) => (
                CreateAccount { user, body, enc_key, route, phase: Phase::Done },
                Action::Respond(Reply::Failed(e)),
            ),
            (Phase::Upserting, Event::Written(Ok(_))) => {
                let publication = new_user_publication(&route, body.pubkey.clone());
                (
                    CreateAccount { user, body, enc_key, route, phase: Phase::Publishing },
                    Action::Publish { queue: Queue::NewUser, publication },
                )
            },
            (Phase::Publishing, Event::Published(Err(e))) => (
                CreateAccount { user, body, enc_key, route, phase: Phase::Done },
                Action::Respond(Reply::Failed(e)),
            ),
            (Phase::Publishing, Event::Published(Ok(_))) => (
                CreateAccount { user, body, enc_key, route, phase: Phase::Done },
                Action::Respond(Reply::Created),
            ),
            _ => {
                assert(false);
                (CreateAccount { user, body, enc_key, route, phase: Phase::Done }, Action::Respond(Reply::Created))
            },
        }
    }
}

} // verus!
