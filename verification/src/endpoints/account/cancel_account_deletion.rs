use vstd::prelude::*;

use crate::auth::AuthData;

use super::flow::{
    cancel_deletion_decision, pending_of, Action, DeletionDecision, Event, Reply,
};

verus! {

/// Where a cancellation stands.
pub enum Phase {
    Connecting,
    Reading,
    Clearing,
    Done,
}

impl Phase {
    /// Steps left before the reply, at most.
    pub open spec fn rank(self) -> nat {
        match self {
            Phase::Connecting => 3,
            Phase::Reading => 2,
            Phase::Clearing => 1,
            Phase::Done => 0,
        }
    }
}

/// Cancelling the pending deletion of the signed-in user's account.
pub struct CancelAccountDeletion {
    pub uid: String,
    pub phase: Phase,
}

/// Starts a cancellation for the signed-in user: first take a connection.
pub fn exec(auth: AuthData) -> (r: (CancelAccountDeletion, Action))
    ensures
        r.0.uid == auth.user.local_id,
        r.0.phase is Connecting,
        r.1 is Connect,
{
    (CancelAccountDeletion { uid: auth.user.local_id, phase: Phase::Connecting }, Action::Connect)
}

impl CancelAccountDeletion {
    /// The event answers the action asked for last.
    pub open spec fn expects(&self, event: &Event) -> bool {
        match self.phase {
            Phase::Connecting => event is Connected,
            Phase::Reading => event is AccountRead,
            Phase::Clearing => event is Written,
            Phase::Done => false,
        }
    }

    /// Takes the outcome of the last action and says what to do next.
    /// A failed connection or write fails the request; an unknown account is
    /// not found; an account without a pending deletion request is a bad
    /// request; otherwise the request is cleared and the answer is 200.
    pub fn step(self, event: Event) -> (r: (CancelAccountDeletion, Action))
        requires
            self.expects(&event),
        ensures
            r.0.uid == self.uid,
            r.0.phase.rank() < self.phase.rank(),
            r.0.phase is Done <==> r.1 is Respond,
            match (self.phase, event) {
                (Phase::Connecting, Event::Connected(Err(e))) => r.1 == Action::Respond(
                    Reply::Failed(e),
                ),
                (Phase::Connecting, Event::Connected(Ok(_))) => r.0.phase is Reading && (
                r.1 matches Action::ReadAccount { uid } && uid@ == self.uid@),
                (Phase::Reading, Event::AccountRead(found)) => match cancel_deletion_decision(
                    pending_of(found),
                ) {
                    DeletionDecision::NotFound => r.1 == Action::Respond(Reply::NotFound),
                    DeletionDecision::BadRequest => r.1 == Action::Respond(Reply::BadRequest),
                    DeletionDecision::SetDeleteRequestAt(at) => r.0.phase is Clearing && (
                    r.1 matches Action::SetDeleteRequestAt { uid, at: a } && uid@ == self.uid@
                        && a == at),
                },
                (Phase::Clearing, Event::Written(Err(e))) => r.1 == Action::Respond(
                    Reply::Failed(e),
                ),
                (Phase::Clearing, Event::Written(Ok(_))) => r.1 == Action::Respond(
                    Reply::Success,
                ),
                _ => false,
            },
    {
        let uid = self.uid;
        match (self.phase, event) {
            (Phase::Connecting, Event::Connected(Err(e))) => (
                CancelAccountDeletion { uid, phase: Phase::Done },
                Action::Respond(Reply::Failed(e)),
            ),
            (Phase::Connecting, Event::Connected(Ok(_))) => {
                let read = Action::ReadAccount { uid: uid.clone() };
                (CancelAccountDeletion { uid, phase: Phase::Reading }, read)
            },
            (Phase::Reading, Event::AccountRead(found)) => match found {
                None => (
                    CancelAccountDeletion { uid, phase: Phase::Done },
                    Action::Respond(Reply::NotFound),
                ),
                Some(account) => {
                    if account.delete_request_at.is_none() {
                        (
                            CancelAccountDeletion { uid, phase: Phase::Done },
                            Action::Respond(Reply::BadRequest),
                        )
                    } else {
                        let clear = Action::SetDeleteRequestAt { uid: uid.clone(), at: None };
                        (CancelAccountDeletion { uid, phase: Phase::Clearing }, clear)
                    }
                },
            },
            (Phase::Clearing, Event::Written(Err(e))) => (
                CancelAccountDeletion { uid, phase: Phase::Done },
                Action::Respond(Reply::Failed(e)),
            ),
            (Phase::Clearing, Event::Written(Ok(_))) => (
                CancelAccountDeletion { uid, phase: Phase::Done },
                Action::Respond(Reply::Success),
            ),
            _ => {
                assert(false);
                (CancelAccountDeletion { uid, phase: Phase::Done }, Action::Respond(Reply::BadRequest))
            },
        }
    }
}

} // verus!
