use vstd::prelude::*;

use crate::auth::AuthData;

use super::flow::{bytes_of, string_bytes, Action, Event, Reply, StoredAccount};

verus! {

/// Where a lookup stands.
pub enum Phase {
    Connecting,
    Reading,
    Decrypting(StoredAccount),
    Done,
}

impl Phase {
    /// Steps left before the reply, at most.
    pub open spec fn rank(self) -> nat {
        match self {
            Phase::Connecting => 3,
            Phase::Reading => 2,
            Phase::Decrypting(_) => 1,
            Phase::Done => 0,
        }
    }
}

/// Reading the signed-in user's account, with its share decrypted.
pub struct GetAccount {
    pub uid: String,
    pub enc_key: Vec<u8>,
    pub phase: Phase,
}

/// Starts a lookup of the signed-in user's account, decrypting with
/// `enc_key`: first take a connection.
pub fn exec(auth: AuthData, enc_key: Vec<u8>) -> (r: (GetAccount, Action))
    ensures
        r.0.uid == auth.user.local_id,
        r.0.enc_key == enc_key,
        r.0.phase is Connecting,
        r.1 is Connect,
{
    (GetAccount { uid: auth.user.local_id, enc_key, phase: Phase::Connecting }, Action::Connect)
}

impl GetAccount {
    /// The event answers the action asked for last.
    pub open spec fn expects(&self, event: &Event) -> bool {
        match self.phase {
            Phase::Connecting => event is Connected,
            Phase::Reading => event is AccountRead,
            Phase::Decrypting(_) => event is Decrypted,
            Phase::Done => false,
        }
    }

    /// Takes the outcome of the last action and says what to do next.
    /// A failed connection or decryption fails the request; an unknown
    /// account is not found; a found account has its share decrypted with the
    /// whole key and the whole public key as nonce, and is answered with the
    /// decrypted share in place of the stored one.
    pub fn step(self, event: Event) -> (r: (GetAccount, Action))
        requires
            self.expects(&event),
        ensures
            r.0.uid == self.uid,
            r.0.enc_key == self.enc_key,
            r.0.phase.rank() < self.phase.rank(),
            r.0.phase is Done <==> r.1 is Respond,
            match (self.phase, event) {
                (Phase::Connecting, Event::Connected(Err(e))) => r.1 == Action::Respond(
                    Reply::Failed(e),
                ),
                (Phase::Connecting, Event::Connected(Ok(_))) => r.0.phase is Reading && (
                r.1 matches Action::ReadAccount { uid } && uid@ == self.uid@),
                (Phase::Reading, Event::AccountRead(None)) => r.1 == Action::Respond(
                    Reply::NotFound,
                ),
                (Phase::Reading, Event::AccountRead(Some(account))) => r.0.phase
                    == Phase::Decrypting(account) && (r.1 matches Action::Decrypt {
                    key,
                    nonce,
                    ciphertext,
                } && key@ == self.enc_key@ && nonce@ == bytes_of(account.pubkey) && ciphertext@
                    == bytes_of(account.dapp_share)),
                (Phase::Decrypting(_), Event::Decrypted(Err(e))) => r.1 == Action::Respond(
                    Reply::Failed(e),
                ),
                (Phase::Decrypting(account), Event::Decrypted(Ok(share))) => r.1
                    == Action::Respond(
                    Reply::SuccessAccount(StoredAccount { dapp_share: share, ..account }),
                ),
                _ => false,
            },
    {
        let uid = self.uid;
        let enc_key = self.enc_key;
        match (self.phase, event) {
            (Phase::Connecting, Event::Connected(Err(e))) => (
                GetAccount { uid, enc_key, phase: Phase::Done },
                Action::Respond(Reply::Failed(e)),
            ),
            (Phase::Connecting, Event::Connected(Ok(_))) => {
                let read = Action::ReadAccount { uid: uid.clone() };
                (GetAccount { uid, enc_key, phase: Phase::Reading }, read)
            },
            (Phase::Reading, Event::AccountRead(None)) => (
                GetAccount { uid, enc_key, phase: Phase::Done },
                Action::Respond(Reply::NotFound),
            ),
            (Phase::Reading, Event::AccountRead(Some(account))) => {
                let decrypt = Action::Decrypt {
                    key: vstd::slice::slice_to_vec(enc_key.as_slice()),
                    nonce: string_bytes(&account.pubkey),
                    ciphertext: string_bytes(&account.dapp_share),
                };
                (GetAccount { uid, enc_key, phase: Phase::Decrypting(account) }, decrypt)
            },
            (Phase::Decrypting(_), Event::Decrypted(Err(e))) => (
                GetAccount { uid, enc_key, phase: Phase::Done },
                Action::Respond(Reply::Failed(e)),
            ),
            (Phase::Decrypting(account), Event::Decrypted(Ok(share))) => {
                let mut account = account;
                account.dapp_share = share;
                (
                    GetAccount { uid, enc_key, phase: Phase::Done },
                    Action::Respond(Reply::SuccessAccount(account)),
                )
            },
            _ => {
                assert(false);
                (GetAccount { uid, enc_key, phase: Phase::Done }, Action::Respond(Reply::NotFound))
            },
        }
    }
}

} // verus!
