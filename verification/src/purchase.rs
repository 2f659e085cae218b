use vstd::prelude::*;

use crate::aggregate::enrich_ticket;
use crate::http::{FetchOutcome, GateError};
use crate::records::{
    Balance, CombinedPurchaseResponse, PurchasePost, PurchaseResponse, Ticket, TicketPost,
    TicketPostBalance, WebFlight,
};

verus! {

/// How a purchase saga can end.
#[derive(Clone, Copy, Debug, PartialEq, Eq, Structural)]
pub enum PurchaseOutcome {
    /// The auth gate refused the request.
    Unauthorized,
    /// The requested flight does not exist.
    FlightNotFound,
    /// The declared price differs from the flight's authoritative price.
    PriceMismatch,
    /// The ticket service rejected the creation; nothing was created.
    TicketRejected,
    /// A transport-level failure before any loyalty effect was applied.
    Internal,
    /// The loyalty step failed and the created ticket was deleted again.
    LoyaltyFailedCompensated,
    /// The loyalty step failed and the compensating delete failed too:
    /// the ticket is orphaned, which is surfaced, never hidden.
    CompensationFailed,
}

impl PurchaseOutcome {
    /// The HTTP status the gateway answers with for each saga ending.
    pub fn http_status(&self) -> (s: u16)
        ensures
            *self == PurchaseOutcome::Unauthorized ==> s == 401,
            *self == PurchaseOutcome::FlightNotFound ==> s == 404,
            *self == PurchaseOutcome::PriceMismatch ==> s == 400,
            *self == PurchaseOutcome::TicketRejected ==> s == 404,
            *self == PurchaseOutcome::Internal ==> s == 500,
            *self == PurchaseOutcome::LoyaltyFailedCompensated ==> s == 500,
            *self == PurchaseOutcome::CompensationFailed ==> s == 500,
    {
        match self {
            PurchaseOutcome::Unauthorized => 401,
            PurchaseOutcome::FlightNotFound => 404,
            PurchaseOutcome::PriceMismatch => 400,
            PurchaseOutcome::TicketRejected => 404,
            PurchaseOutcome::Internal => 500,
            PurchaseOutcome::LoyaltyFailedCompensated => 500,
            PurchaseOutcome::CompensationFailed => 500,
        }
    }
}

/// Where a purchase saga stands between two downstream calls.
pub enum PurchaseState {
    /// Waiting for the flight lookup that validates the request.
    FetchingFlight { req: TicketPostBalance },
    /// Price checked; waiting for the ticket service to create the ticket.
    CreatingTicket { post: TicketPost, paid_from_balance: bool },
    /// Ticket created; waiting for the bonus service to apply the loyalty
    /// effect.
    PostingLoyalty { ticket: Ticket, paid_from_balance: bool },
    /// Loyalty failed; waiting for the compensating delete of the ticket.
    Compensating { ticket_uid: String },
    /// Loyalty applied; waiting for the flight lookup that enriches the
    /// response.
    Enriching { ticket: Ticket, purchase: PurchaseResponse },
    /// The saga is over.
    Finished { outcome: PurchaseOutcome },
}

/// The answer to the downstream call a purchase state was waiting for.
pub enum PurchaseEvent {
    FlightFetched { outcome: FetchOutcome<WebFlight> },
    TicketCreated { outcome: FetchOutcome<Ticket> },
    LoyaltyPosted { outcome: FetchOutcome<PurchaseResponse> },
    /// The raw status code of the compensating delete; `None` is a transport
    /// failure.
    CompensationDone { code: Option<u16> },
}

/// The downstream call (or final answer) a purchase state asks for next.
pub enum PurchaseAction {
    FetchFlight { flight_number: String },
    CreateTicket { ticket_post: TicketPost },
    PostLoyalty { loyalty_post: PurchasePost },
    DeleteTicket { ticket_uid: String },
    Respond { outcome: PurchaseOutcome },
}

/// Which event answers which state.
pub open spec fn purchase_event_fits(state: PurchaseState, event: PurchaseEvent) -> bool {
    match state {
        PurchaseState::FetchingFlight { .. } => event is FlightFetched,
        PurchaseState::CreatingTicket { .. } => event is TicketCreated,
        PurchaseState::PostingLoyalty { .. } => event is LoyaltyPosted,
        PurchaseState::Compensating { .. } => event is CompensationDone,
        PurchaseState::Enriching { .. } => false,
        PurchaseState::Finished { .. } => false,
    }
}

/// The saga's starting state: an unauthorized request is finished before any
/// downstream call; otherwise the flight lookup is pending.
pub open spec fn spec_purchase_start(auth_ok: bool, req: TicketPostBalance) -> PurchaseState {
    if auth_ok {
        PurchaseState::FetchingFlight { req }
    } else {
        PurchaseState::Finished { outcome: PurchaseOutcome::Unauthorized }
    }
}

/// The saga's transition relation.
///
/// Every abort point of the purchase is here: a missing flight or a price
/// mismatch aborts with nothing created; a failed creation is terminal with
/// nothing to undo; a failed loyalty step moves to compensation, whose own
/// failure is surfaced as an orphaned-ticket error.
pub open spec fn spec_purchase_step(state: PurchaseState, event: PurchaseEvent) -> PurchaseState {
    match state {
        PurchaseState::FetchingFlight { req } => match event {
            PurchaseEvent::FlightFetched { outcome } => match outcome {
                FetchOutcome::Success(flight) => {
                    if flight.price != req.price {
                        PurchaseState::Finished { outcome: PurchaseOutcome::PriceMismatch }
                    } else {
                        PurchaseState::CreatingTicket {
                            post: TicketPost {
                                flight_number: req.flightNumber,
                                price: req.price,
                            },
                            paid_from_balance: req.paidFromBalance,
                        }
                    }
                },
                FetchOutcome::Rejected => PurchaseState::Finished {
                    outcome: PurchaseOutcome::FlightNotFound,
                },
                FetchOutcome::Transport => PurchaseState::Finished {
                    outcome: PurchaseOutcome::Internal,
                },
            },
            _ => state,
        },
        PurchaseState::CreatingTicket { post, paid_from_balance } => match event {
            PurchaseEvent::TicketCreated { outcome } => match outcome {
                FetchOutcome::Success(ticket) => PurchaseState::PostingLoyalty {
                    ticket,
                    paid_from_balance,
                },
                FetchOutcome::Rejected => PurchaseState::Finished {
                    outcome: PurchaseOutcome::TicketRejected,
                },
                FetchOutcome::Transport => PurchaseState::Finished {
                    outcome: PurchaseOutcome::Internal,
                },
            },
            _ => state,
        },
        PurchaseState::PostingLoyalty { ticket, paid_from_balance } => match event {
            PurchaseEvent::LoyaltyPosted { outcome } => match outcome {
                FetchOutcome::Success(purchase) => PurchaseState::Enriching { ticket, purchase },
                _ => PurchaseState::Compensating { ticket_uid: ticket.ticket_uid },
            },
            _ => state,
        },
        PurchaseState::Compensating { .. } => match event {
            PurchaseEvent::CompensationDone { code } => {
                if code == Some(204u16) {
                    PurchaseState::Finished { outcome: PurchaseOutcome::LoyaltyFailedCompensated }
                } else {
                    PurchaseState::Finished { outcome: PurchaseOutcome::CompensationFailed }
                }
            },
            _ => state,
        },
        _ => state,
    }
}

/// The downstream call each state asks for next.
pub open spec fn spec_purchase_action(state: PurchaseState) -> PurchaseAction {
    match state {
        PurchaseState::FetchingFlight { req } => PurchaseAction::FetchFlight {
            flight_number: req.flightNumber,
        },
        PurchaseState::CreatingTicket { post, .. } => PurchaseAction::CreateTicket { ticket_post: post },
        PurchaseState::PostingLoyalty { ticket, paid_from_balance } => PurchaseAction::PostLoyalty {
            loyalty_post: PurchasePost {
                ticket_uid: ticket.ticket_uid,
                price: ticket.price,
                paid_from_balance,
            },
        },
        PurchaseState::Compensating { ticket_uid } => PurchaseAction::DeleteTicket { ticket_uid },
        PurchaseState::Enriching { ticket, .. } => PurchaseAction::FetchFlight {
            flight_number: ticket.flight_number,
        },
        PurchaseState::Finished { outcome } => PurchaseAction::Respond { outcome },
    }
}

/// Start a purchase saga for an authenticated (or refused) request.
pub fn purchase_start(auth_ok: bool, req: TicketPostBalance) -> (s: PurchaseState)
    ensures
        s == spec_purchase_start(auth_ok, req),
{
    if auth_ok {
        PurchaseState::FetchingFlight { req }
    } else {
        PurchaseState::Finished { outcome: PurchaseOutcome::Unauthorized }
    }
}

/// Advance the saga by one answered downstream call.
pub fn purchase_step(state: PurchaseState, event: PurchaseEvent) -> (next: PurchaseState)
    requires
        purchase_event_fits(state, event),
    ensures
        next == spec_purchase_step(state, event),
{
    match state {
        PurchaseState::FetchingFlight { req } => match event {
            PurchaseEvent::FlightFetched { outcome } => match outcome {
                FetchOutcome::Success(flight) => {
                    if flight.price != req.price {
                        PurchaseState::Finished { outcome: PurchaseOutcome::PriceMismatch }
                    } else {
                        PurchaseState::CreatingTicket {
                            post: TicketPost {
                                flight_number: req.flightNumber,
                                price: req.price,
                            },
                            paid_from_balance: req.paidFromBalance,
                        }
                    }
                },
                FetchOutcome::Rejected => PurchaseState::Finished {
                    outcome: PurchaseOutcome::FlightNotFound,
                },
                FetchOutcome::Transport => PurchaseState::Finished {
                    outcome: PurchaseOutcome::Internal,
                },
            },
            _ => PurchaseState::FetchingFlight { req },
        },
        PurchaseState::CreatingTicket { post, paid_from_balance } => match event {
            PurchaseEvent::TicketCreated { outcome } => match outcome {
                FetchOutcome::Success(ticket) => PurchaseState::PostingLoyalty {
                    ticket,
                    paid_from_balance,
                },
                FetchOutcome::Rejected => PurchaseState::Finished {
                    outcome: PurchaseOutcome::TicketRejected,
                },
                FetchOutcome::Transport => PurchaseState::Finished {
                    outcome: PurchaseOutcome::Internal,
                },
            },
            _ => PurchaseState::CreatingTicket { post, paid_from_balance },
        },
        PurchaseState::PostingLoyalty { ticket, paid_from_balance } => match event {
            PurchaseEvent::LoyaltyPosted { outcome } => match outcome {
                FetchOutcome::Success(purchase) => PurchaseState::Enriching { ticket, purchase },
                _ => PurchaseState::Compensating { ticket_uid: ticket.ticket_uid },
            },
            _ => PurchaseState::PostingLoyalty { ticket, paid_from_balance },
        },
        PurchaseState::Compensating { ticket_uid } => match event {
            PurchaseEvent::CompensationDone { code } => match code {
                Some(c) => {
                    if c == 204 {
                        PurchaseState::Finished {
                            outcome: PurchaseOutcome::LoyaltyFailedCompensated,
                        }
                    } else {
                        PurchaseState::Finished { outcome: PurchaseOutcome::CompensationFailed }
                    }
                },
                None => PurchaseState::Finished { outcome: PurchaseOutcome::CompensationFailed },
            },
            _ => PurchaseState::Compensating { ticket_uid },
        },
        PurchaseState::Enriching { ticket, purchase } => PurchaseState::Enriching {
            ticket,
            purchase,
        },
        PurchaseState::Finished { outcome } => PurchaseState::Finished { outcome },
    }
}

/// The next downstream call (or the final answer) the saga asks for.
pub fn purchase_action(state: &PurchaseState) -> (a: PurchaseAction)
    ensures
        a == spec_purchase_action(*state),
{
    match state {
        PurchaseState::FetchingFlight { req } => PurchaseAction::FetchFlight {
            flight_number: req.flightNumber.clone(),
        },
        PurchaseState::CreatingTicket { post, .. } => PurchaseAction::CreateTicket {
            ticket_post: TicketPost {
                flight_number: post.flight_number.clone(),
                price: post.price,
            },
        },
        PurchaseState::PostingLoyalty { ticket, paid_from_balance } => PurchaseAction::PostLoyalty {
            loyalty_post: PurchasePost {
                ticket_uid: ticket.ticket_uid.clone(),
                price: ticket.price,
                paid_from_balance: *paid_from_balance,
            },
        },
        PurchaseState::Compensating { ticket_uid } => PurchaseAction::DeleteTicket {
            ticket_uid: ticket_uid.clone(),
        },
        PurchaseState::Enriching { ticket, .. } => PurchaseAction::FetchFlight {
            flight_number: ticket.flight_number.clone(),
        },
        PurchaseState::Finished { outcome } => PurchaseAction::Respond { outcome: *outcome },
    }
}

/// The money/points split and the updated balance of the bonus service's
/// answer, as they appear in the client-facing purchase answer.
pub open spec fn combined_split(purchase: PurchaseResponse, c: CombinedPurchaseResponse) -> bool {
    &&& c.paidByMoney == purchase.paid_by_money
    &&& c.paidByBonuses == purchase.paid_by_bonuses
    &&& c.privilege.balance == purchase.balance
    &&& c.privilege.status@ == purchase.status@
}

/// The successful purchase answer when the enriching flight lookup succeeded.
pub open spec fn combined_from_flight(
    t: Ticket,
    purchase: PurchaseResponse,
    f: WebFlight,
    c: CombinedPurchaseResponse,
) -> bool {
    &&& c.ticketUid@ == t.ticket_uid@
    &&& c.flightNumber@ == f.flightNumber@
    &&& c.fromAirport@ == f.fromAirport@
    &&& c.toAirport@ == f.toAirport@
    &&& c.date@ == f.date@
    &&& c.price == f.price
    &&& c.status@ == t.status@
    &&& combined_split(purchase, c)
}

/// The successful purchase answer when the enriching flight lookup was
/// rejected: the ticket's placeholder view carries the split.
pub open spec fn combined_placeholder(
    t: Ticket,
    purchase: PurchaseResponse,
    c: CombinedPurchaseResponse,
) -> bool {
    &&& c.ticketUid@ == t.ticket_uid@
    &&& c.flightNumber@ == t.flight_number@
    &&& c.fromAirport@ == "Departure airport"@
    &&& c.toAirport@ == "Destination airport"@
    &&& c.date@ == "1970-01-01 00:00"@
    &&& c.price == t.price
    &&& c.status@ == t.status@
    &&& combined_split(purchase, c)
}

/// Build the client-facing answer of a successful purchase from the created
/// ticket, the bonus service's answer and the enriching flight lookup.
/// A rejected lookup degrades to the placeholder ticket view; a transport
/// failure is an internal error.
pub fn purchase_success_view(
    ticket: &Ticket,
    purchase: &PurchaseResponse,
    flight: &FetchOutcome<WebFlight>,
) -> (r: Result<CombinedPurchaseResponse, GateError>)
    ensures
        *flight is Transport ==> r == Err::<CombinedPurchaseResponse, GateError>(
            GateError::Internal,
        ),
        *flight matches FetchOutcome::Success(f) ==> (r matches Ok(c) && combined_from_flight(
            *ticket,
            *purchase,
            f,
            c,
        )),
        *flight is Rejected ==> (r matches Ok(c) && combined_placeholder(*ticket, *purchase, c)),
{
    match enrich_ticket(ticket, flight) {
        Ok(tr) => {
            let c = CombinedPurchaseResponse {
                ticketUid: tr.ticketUid,
                flightNumber: tr.flightNumber,
                fromAirport: tr.fromAirport,
                toAirport: tr.toAirport,
                date: tr.date,
                price: tr.price,
                paidByMoney: purchase.paid_by_money,
                paidByBonuses: purchase.paid_by_bonuses,
                status: tr.status,
                privilege: Balance {
                    balance: purchase.balance,
                    status: purchase.status.clone(),
                },
            };
            Ok(c)
        },
        Err(_) => Err(GateError::Internal),
    }
}

/// The saga compensates: whenever the loyalty step of a purchase comes back
/// rejected (or fails in transport), the next state deletes exactly the
/// ticket this saga created, and its pending action is that delete.
pub proof fn lemma_loyalty_failure_compensates(state: PurchaseState, event: PurchaseEvent)
    requires
        state is PostingLoyalty,
        event matches PurchaseEvent::LoyaltyPosted { outcome } && !(outcome is Success),
    ensures
        spec_purchase_step(state, event) == (PurchaseState::Compensating {
            ticket_uid: state->PostingLoyalty_ticket.ticket_uid,
        }),
        spec_purchase_action(spec_purchase_step(state, event)) == (PurchaseAction::DeleteTicket {
            ticket_uid: state->PostingLoyalty_ticket.ticket_uid,
        }),
{
}

/// A purchase saga only ends in one of three ways after its ticket was
/// created: the loyalty effect was applied (the saga is enriching its
/// answer), or the ticket was deleted again, or the failure of that delete
/// itself is reported; no ending silently keeps a ticket whose loyalty step
/// failed.
pub proof fn lemma_no_silent_orphan(state: PurchaseState, event: PurchaseEvent)
    requires
        purchase_event_fits(state, event),
        state is PostingLoyalty,
    ensures
        spec_purchase_step(state, event) is Enriching || spec_purchase_step(state, event)
            is Compensating,
        spec_purchase_step(state, event) is Enriching ==> event->LoyaltyPosted_outcome is Success,
{
}

} // verus!
