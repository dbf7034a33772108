use vstd::prelude::*;

use crate::auth::AuthData;

use super::flow::{
    bytes_of, pending_of, request_deletion_decision, Action, DeletionDecision, Event, Queue,
    Reply, Timestamp,
};
use crate::queue::{borsh_string, delete_request_publication, QueueRoute};

verus! {

/// Where a deletion request stands.
pub enum Phase {
    Connecting,
    Reading,
    Marking,
    Publishing,
    Done,
}

impl Phase {
    /// Steps left before the reply, at most.
    pub open spec fn rank(self) -> nat {
        match self {
            Phase::Connecting => 4,
            Phase::Reading => 3,
            Phase::Marking => 2,
            Phase::Publishing => 1,
            Phase::Done => 0,
        }
    }
}

/// Requesting the deletion of the signed-in user's account: the request is
/// recorded on the account, then announced on the deletion-request queue.
pub struct RequestAccountDeletion {
    pub uid: String,
    pub route: QueueRoute,
    pub phase: Phase,
}

/// Starts a deletion request for the signed-in user, to be announced on
/// `route`: first take a connection.
pub fn exec(auth: AuthData, route: QueueRoute) -> (r: (RequestAccountDeletion, Action))
    ensures
        r.0.uid == auth.user.local_id,
        r.0.route == route,
        r.0.phase is Connecting,
        r.1 is Connect,
{
    (RequestAccountDeletion { uid: auth.user.local_id, route, phase: Phase::Connecting }, Action::Connect)
}

impl RequestAccountDeletion {
    /// The event answers the action asked for last.
    pub open spec fn expects(&self, event: &Event) -> bool {
        match self.phase {
            Phase::Connecting => event is Connected,
            Phase::Reading => event is AccountRead,
            Phase::Marking => event is Written,
            Phase::Publishing => event is Published,
            Phase::Done => false,
        }
    }

    /// The message can be encoded once the request is recorded.
    pub open spec fn can_announce(&self, event: &Event) -> bool {
        (self.phase is Marking && event matches Event::Written(Ok(_))) ==> bytes_of(self.uid).len()
            <= u32::MAX
    }

    /// The event is the one on which the request gets recorded, which needs
    /// the current time: a found account with no pending deletion request.
    pub open spec fn records_request(&self, event: &Event) -> bool {
        &&& self.phase is Reading
        &&& event matches Event::AccountRead(Some(account)) && account.delete_request_at is None
    }

    /// Whether the next step needs the current time.
    pub fn needs_time(&self, event: &Event) -> (b: bool)
        ensures
            b == self.records_request(event),
    {
        match (&self.phase, event) {
            (Phase::Reading, Event::AccountRead(Some(account))) => account.delete_request_at.is_none(),
            _ => false,
        }
    }

    /// `r` is what follows `event`, `now` being the current time when the
    /// step needs it: a failed
    /// connection, write or publication fails the request; an unknown
    /// account is not found; an account whose deletion is already requested
    /// is a bad request; otherwise the request is recorded at `now`, then the
    /// uid is published on the route, and the answer is 200.
    pub open spec fn steps_to(self, event: Event, now: Option<Timestamp>, r: (RequestAccountDeletion, Action)) -> bool {
        &&& r.0.uid == self.uid
        &&& r.0.route == self.route
        &&& r.0.phase.rank() < self.phase.rank()
        &&& (r.0.phase is Done <==> r.1 is Respond)
        &&& match (self.phase, event) {
            (Phase::Connecting, Event::Connected(Err(e))) => r.1 == Action::Respond(Reply::Failed(e)),
            (Phase::Connecting, Event::Connected(Ok(_))) => r.0.phase is Reading && (
            r.1 matches Action::ReadAccount { uid } && uid@ == self.uid@),
            (Phase::Reading, Event::AccountRead(found)) => match request_deletion_decision(
                pending_of(found),
                now->0,
            ) {
                DeletionDecision::NotFound => r.1 == Action::Respond(Reply::NotFound),
                DeletionDecision::BadRequest => r.1 == Action::Respond(Reply::BadRequest),
                DeletionDecision::SetDeleteRequestAt(at) => r.0.phase is Marking && (
                r.1 matches Action::SetDeleteRequestAt { uid, at: a } && uid@ == self.uid@ && a
                    == at),
            },
            (Phase::Marking, Event::Written(Err(e))) => r.1 == Action::Respond(Reply::Failed(e)),
            (Phase::Marking, Event::Written(Ok(_))) => r.0.phase is Publishing && (
            r.1 matches Action::Publish { queue, publication: p } && queue is DeleteAccountRequest
                && p.exchange_name@ == self.route.exchange_name@
                && p.routing_key@ == self.route.routing_key@ && p.payload@ == borsh_string(
                self.uid@,
            )),
            (Phase::Publishing, Event::Published(Err(e))) => r.1 == Action::Respond(Reply::Failed(e)),
            (Phase::Publishing, Event::Published(Ok(_))) => r.1 == Action::Respond(Reply::Success),
            _ => false,
        }
    }

    /// Takes the outcome of the last action and says what to do next; `now`
    /// is the current time, which must be given when `needs_time` says so.
    pub fn step(self, event: Event, now: Option<Timestamp>) -> (r: (RequestAccountDeletion, Action))
        requires
            self.expects(&event),
            self.can_announce(&event),
            self.records_request(&event) ==> now is Some,
        ensures
            self.steps_to(event, now, r),
    {
        let uid = self.uid;
        let route = self.route;
        match (self.phase, event) {
            (Phase::Connecting, Event::Connected(Err(e))) => (
                RequestAccountDeletion { uid, route, phase: Phase::Done },
                Action::Respond(Reply::Failed(e)),
            ),
            (Phase::Connecting, Event::Connected(Ok(_))) => {
                let read = Action::ReadAccount { uid: uid.clone() };
                (RequestAccountDeletion { uid, route, phase: Phase::Reading }, read)
            },
            (Phase::Reading, Event::AccountRead(found)) => match found {
                None => (
                    RequestAccountDeletion { uid, route, phase: Phase::Done },
                    Action::Respond(Reply::NotFound),
                ),
                Some(account) => {
                    if account.delete_request_at.is_some() {
                        (
                            RequestAccountDeletion { uid, route, phase: Phase::Done },
                            Action::Respond(Reply::BadRequest),
                        )
                    } else {
                        let mark = Action::SetDeleteRequestAt { uid: uid.clone(), at: now };
                        (RequestAccountDeletion { uid, route, phase: Phase::Marking }, mark)
                    }
                },
            },
            (Phase::Marking, Event::Written(Err(e))) => (
                RequestAccountDeletion { uid, route, phase: Phase::Done },
                Action::Respond(Reply::Failed(e)),
            ),
            (Phase::Marking, Event::Written(Ok(_))) => {
                let publication = delete_request_publication(&route, uid.clone());
                (
                    RequestAccountDeletion { uid, route, phase: Phase::Publishing },
                    Action::Publish { queue: Queue::DeleteAccountRequest, publication },
                )
            },
            (Phase::Publishing, Event::Published(Err(e))) => (
                RequestAccountDeletion { uid, route, phase: Phase::Done },
                Action::Respond(Reply::Failed(e)),
            ),
            (Phase::Publishing, Event::Published(Ok(_))) => (
                RequestAccountDeletion { uid, route, phase: Phase::Done },
                Action::Respond(Reply::Success),
            ),
            _ => {
                assert(false);
                (RequestAccountDeletion { uid, route, phase: Phase::Done }, Action::Respond(Reply::BadRequest))
            },
        }
    }
}

} // verus!
