use vstd::prelude::*;

use crate::http::FetchOutcome;
use crate::queue::{CompensationQueue, QueuedRequest};
use crate::records::Ticket;

verus! {

/// How a cancellation can end.
#[derive(Clone, Copy, Debug, PartialEq, Eq, Structural)]
pub enum CancelOutcome {
    /// The auth gate refused the request.
    Unauthorized,
    /// The ticket does not exist or is owned by another user.
    NotFound,
    /// The ticket is not in the paid state any more.
    AlreadyCanceled,
    /// A transport-level failure.
    Internal,
    /// The ticket was canceled and its compensation enqueued.
    Done,
}

impl CancelOutcome {
    /// The HTTP status the gateway answers with for each ending.
    pub fn http_status(&self) -> (s: u16)
        ensures
            *self == CancelOutcome::Unauthorized ==> s == 401,
            *self == CancelOutcome::NotFound ==> s == 404,
            *self == CancelOutcome::AlreadyCanceled ==> s == 400,
            *self == CancelOutcome::Internal ==> s == 500,
            *self == CancelOutcome::Done ==> s == 204,
    {
        match self {
            CancelOutcome::Unauthorized => 401,
            CancelOutcome::NotFound => 404,
            CancelOutcome::AlreadyCanceled => 400,
            CancelOutcome::Internal => 500,
            CancelOutcome::Done => 204,
        }
    }
}

/// What the cancellation does after inspecting the fetched ticket: finish
/// with an answer, or proceed to the ticket service's cancel call.
#[derive(Clone, Copy, Debug, PartialEq, Eq, Structural)]
pub enum CancelDecision {
    Finish { outcome: CancelOutcome },
    Proceed,
}

/// The decision taken on the fetched ticket: only an existing ticket that is
/// still paid goes on to the cancel call; a ticket already out of the paid
/// state is refused as already canceled, with no further action.
pub open spec fn spec_cancel_inspect(auth_ok: bool, ticket: FetchOutcome<Ticket>) -> CancelDecision {
    if !auth_ok {
        CancelDecision::Finish { outcome: CancelOutcome::Unauthorized }
    } else {
        match ticket {
            FetchOutcome::Success(t) => {
                if t.status@ == "PAID"@ {
                    CancelDecision::Proceed
                } else {
                    CancelDecision::Finish { outcome: CancelOutcome::AlreadyCanceled }
                }
            },
            FetchOutcome::Rejected => CancelDecision::Finish { outcome: CancelOutcome::NotFound },
            FetchOutcome::Transport => CancelDecision::Finish { outcome: CancelOutcome::Internal },
        }
    }
}

/// Inspect the outcome of the ticket lookup that opens a cancellation.
pub fn cancel_inspect(auth_ok: bool, ticket: &FetchOutcome<Ticket>) -> (d: CancelDecision)
    ensures
        d == spec_cancel_inspect(auth_ok, *ticket),
{
    if !auth_ok {
        return CancelDecision::Finish { outcome: CancelOutcome::Unauthorized };
    }
    match ticket {
        FetchOutcome::Success(t) => {
            if t.status == "PAID".to_owned() {
                CancelDecision::Proceed
            } else {
                CancelDecision::Finish { outcome: CancelOutcome::AlreadyCanceled }
            }
        },
        FetchOutcome::Rejected => CancelDecision::Finish { outcome: CancelOutcome::NotFound },
        FetchOutcome::Transport => CancelDecision::Finish { outcome: CancelOutcome::Internal },
    }
}

/// What completing a cancellation does to the queue and answers the caller,
/// given the raw status of the ticket service's cancel call (`None` is a
/// transport failure): only a 204 commits, and exactly then one compensation
/// is appended at the tail.
pub open spec fn spec_cancel_complete(
    entries: Seq<QueuedRequest>,
    ticket_uid: String,
    auth_token: String,
    code: Option<u16>,
) -> (Seq<QueuedRequest>, CancelOutcome) {
    match code {
        Some(c) => {
            if c == 204 {
                (entries.push(QueuedRequest { ticket_uid, auth_token }), CancelOutcome::Done)
            } else {
                (entries, CancelOutcome::NotFound)
            }
        },
        None => (entries, CancelOutcome::Internal),
    }
}

/// Complete a cancellation whose cancel call was issued: on a 204 the
/// loyalty reversal is deferred to the retry queue and the caller is answered
/// at once; on anything else nothing is enqueued.
pub fn cancel_complete(
    queue: &mut CompensationQueue,
    ticket_uid: String,
    auth_token: String,
    code: Option<u16>,
) -> (o: CancelOutcome)
    ensures
        (final(queue)@, o) == spec_cancel_complete(old(queue)@, ticket_uid, auth_token, code),
{
    match code {
        Some(c) => {
            if c == 204 {
                queue.push(QueuedRequest { ticket_uid, auth_token });
                CancelOutcome::Done
            } else {
                CancelOutcome::NotFound
            }
        },
        None => CancelOutcome::Internal,
    }
}

/// Cancelling a paid ticket twice: the first pass proceeds and, once the
/// cancel call reports 204, answers 204 and appends exactly one compensation
/// at the tail; the second pass, which finds the record canceled, is refused
/// as already canceled and leaves the queue alone.
pub proof fn lemma_cancel_twice(
    q: Seq<QueuedRequest>,
    paid: Ticket,
    canceled: Ticket,
    uid: String,
    token: String,
)
    requires
        paid.status@ == "PAID"@,
        canceled.status@ == "CANCELED"@,
    ensures
        spec_cancel_inspect(true, FetchOutcome::Success(paid)) == CancelDecision::Proceed,
        spec_cancel_complete(q, uid, token, Some(204u16)).0 == q.push(
            QueuedRequest { ticket_uid: uid, auth_token: token },
        ),
        spec_cancel_complete(q, uid, token, Some(204u16)).1 == CancelOutcome::Done,
        spec_cancel_inspect(true, FetchOutcome::Success(canceled))
            == (CancelDecision::Finish { outcome: CancelOutcome::AlreadyCanceled }),
{
    reveal_strlit("PAID");
    reveal_strlit("CANCELED");
    assert("PAID"@.len() == 4);
    assert("CANCELED"@.len() == 8);
    assert(canceled.status@ != "PAID"@);
}

} // verus!
