use vstd::prelude::*;

use crate::http::{FetchOutcome, GateError};
use crate::records::{Balance, HealthCheckResponse, PrivilegeGet, Ticket, TicketResponse, User, WebFlight};

verus! {

/// An enriched ticket whose flight lookup succeeded: flight details come from
/// the flight service, identifier and status from the ticket itself.
pub open spec fn enriched_from_flight(t: Ticket, f: WebFlight, r: TicketResponse) -> bool {
    &&& r.ticketUid@ == t.ticket_uid@
    &&& r.flightNumber@ == f.flightNumber@
    &&& r.fromAirport@ == f.fromAirport@
    &&& r.toAirport@ == f.toAirport@
    &&& r.date@ == f.date@
    &&& r.price == f.price
    &&& r.status@ == t.status@
}

/// The degraded enrichment used when the flight lookup is rejected:
/// placeholder airports and epoch date, everything else from the ticket.
pub open spec fn enriched_placeholder(t: Ticket, r: TicketResponse) -> bool {
    &&& r.ticketUid@ == t.ticket_uid@
    &&& r.flightNumber@ == t.flight_number@
    &&& r.fromAirport@ == "Departure airport"@
    &&& r.toAirport@ == "Destination airport"@
    &&& r.date@ == "1970-01-01 00:00"@
    &&& r.price == t.price
    &&& r.status@ == t.status@
}

/// How an enriched ticket relates to the outcome of its flight lookup.
/// A transport failure never yields an enriched ticket.
pub open spec fn enriched_at(t: Ticket, f: FetchOutcome<WebFlight>, r: TicketResponse) -> bool {
    match f {
        FetchOutcome::Success(fl) => enriched_from_flight(t, fl, r),
        FetchOutcome::Rejected => enriched_placeholder(t, r),
        FetchOutcome::Transport => false,
    }
}

/// Enrich one ticket with the outcome of its flight lookup. A rejected lookup
/// degrades gracefully to the placeholder view instead of failing; only a
/// transport-level failure propagates as an error.
pub fn enrich_ticket(ticket: &Ticket, flight: &FetchOutcome<WebFlight>) -> (r: Result<
    TicketResponse,
    GateError,
>)
    ensures
        *flight matches FetchOutcome::Success(f) ==> (r matches Ok(tr) && enriched_from_flight(
            *ticket,
            f,
            tr,
        )),
        *flight is Rejected ==> (r matches Ok(tr) && enriched_placeholder(*ticket, tr)),
        *flight is Transport ==> r == Err::<TicketResponse, GateError>(GateError::Internal),
        r is Ok <==> !(*flight is Transport),
{
    match flight {
        FetchOutcome::Success(f) => Ok(
            TicketResponse {
                ticketUid: ticket.ticket_uid.clone(),
                flightNumber: f.flightNumber.clone(),
                fromAirport: f.fromAirport.clone(),
                toAirport: f.toAirport.clone(),
                date: f.date.clone(),
                price: f.price,
                status: ticket.status.clone(),
            },
        ),
        FetchOutcome::Rejected => Ok(
            TicketResponse {
                ticketUid: ticket.ticket_uid.clone(),
                flightNumber: ticket.flight_number.clone(),
                fromAirport: "Departure airport".to_owned(),
                toAirport: "Destination airport".to_owned(),
                date: "1970-01-01 00:00".to_owned(),
                price: ticket.price,
                status: ticket.status.clone(),
            },
        ),
        FetchOutcome::Transport => Err(GateError::Internal),
    }
}

/// Enrich a list of tickets, one flight-lookup outcome per ticket. The whole
/// list succeeds exactly when no lookup failed at the transport level.
pub fn enrich_tickets(tickets: &Vec<Ticket>, flights: &Vec<FetchOutcome<WebFlight>>) -> (r: Result<
    Vec<TicketResponse>,
    GateError,
>)
    requires
        flights@.len() == tickets@.len(),
    ensures
        r is Ok <==> (forall|i: int| 0 <= i < flights@.len() ==> !(flights@[i] is Transport)),
        r matches Ok(v) ==> v@.len() == tickets@.len() && (forall|i: int|
            0 <= i < v@.len() ==> enriched_at(tickets@[i], flights@[i], v@[i])),
        r is Err ==> r == Err::<Vec<TicketResponse>, GateError>(GateError::Internal),
{
    let mut out: Vec<TicketResponse> = Vec::new();
    let mut i: usize = 0;
    while i < tickets.len()
        invariant
            i <= tickets@.len(),
            flights@.len() == tickets@.len(),
            out@.len() == i,
            forall|j: int| 0 <= j < i ==> enriched_at(tickets@[j], flights@[j], out@[j]),
            forall|j: int| 0 <= j < i ==> !(flights@[j] is Transport),
        decreases tickets@.len() - i,
    {
        match enrich_ticket(&tickets[i], &flights[i]) {
            Ok(tr) => {
                out.push(tr);
            },
            Err(_) => {
                return Err(GateError::Internal);
            },
        }
        i = i + 1;
    }
    Ok(out)
}

/// How the balance part of the user view relates to the loyalty lookup:
/// taken from a successful lookup, zeroed with a generic tier when the lookup
/// was rejected.
pub open spec fn balance_of(p: FetchOutcome<PrivilegeGet>, b: Balance) -> bool {
    match p {
        FetchOutcome::Success(pg) => b.balance == pg.balance && b.status@ == pg.status@,
        FetchOutcome::Rejected => b.balance == 0 && b.status@ == "Generic status"@,
        FetchOutcome::Transport => false,
    }
}

/// Combine the caller's tickets and loyalty balance into one view.
///
/// A rejected loyalty lookup degrades to a zero balance; a rejected ticket
/// list fails the whole request as not found; any transport failure fails it
/// as internal.
pub fn user_view(
    privilege: &FetchOutcome<PrivilegeGet>,
    tickets: &FetchOutcome<Vec<Ticket>>,
    flights: &Vec<FetchOutcome<WebFlight>>,
) -> (r: Result<User, GateError>)
    requires
        *tickets matches FetchOutcome::Success(ts) ==> flights@.len() == ts@.len(),
    ensures
        *privilege is Transport ==> r == Err::<User, GateError>(GateError::Internal),
        !(*privilege is Transport) && *tickets is Rejected ==> r == Err::<User, GateError>(
            GateError::NotFound,
        ),
        !(*privilege is Transport) && *tickets is Transport ==> r == Err::<User, GateError>(
            GateError::Internal,
        ),
        (!(*privilege is Transport) && *tickets is Success) ==> {
            let ts = (*tickets)->Success_0;
            &&& (r is Ok <==> (forall|i: int|
                0 <= i < flights@.len() ==> !(flights@[i] is Transport)))
            &&& (r matches Ok(u) ==> balance_of(*privilege, u.privilege) && u.tickets@.len()
                == ts@.len() && (forall|i: int|
                0 <= i < ts@.len() ==> enriched_at(ts@[i], flights@[i], u.tickets@[i])))
            &&& (r is Err ==> r == Err::<User, GateError>(GateError::Internal))
        },
{
    let balance = match privilege {
        FetchOutcome::Success(pg) => Balance { balance: pg.balance, status: pg.status.clone() },
        FetchOutcome::Rejected => Balance { balance: 0, status: "Generic status".to_owned() },
        FetchOutcome::Transport => {
            return Err(GateError::Internal);
        },
    };
    match tickets {
        FetchOutcome::Success(ts) => {
            match enrich_tickets(ts, flights) {
                Ok(enriched) => Ok(User { tickets: enriched, privilege: balance }),
                Err(_) => Err(GateError::Internal),
            }
        },
        FetchOutcome::Rejected => Err(GateError::NotFound),
        FetchOutcome::Transport => Err(GateError::Internal),
    }
}

/// Aggregate the three downstream health probes. The gateway itself always
/// reports healthy; a backend is healthy exactly when its probe answered 200.
pub fn health_summary(flights: Option<u16>, tickets: Option<u16>, bonuses: Option<u16>) -> (h:
    HealthCheckResponse)
    ensures
        h.gateway == true,
        h.flights == (flights == Some(200u16)),
        h.tickets == (tickets == Some(200u16)),
        h.bonuses == (bonuses == Some(200u16)),
{
    HealthCheckResponse {
        gateway: true,
        flights: probe_healthy(flights),
        tickets: probe_healthy(tickets),
        bonuses: probe_healthy(bonuses),
    }
}

/// One health probe is healthy exactly on an HTTP 200 answer; a transport
/// failure (no answer) counts as unhealthy.
pub fn probe_healthy(code: Option<u16>) -> (h: bool)
    ensures
        h == (code == Some(200u16)),
{
    match code {
        Some(c) => c == 200,
        None => false,
    }
}

} // verus!
