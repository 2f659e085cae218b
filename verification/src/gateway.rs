use vstd::prelude::*;

use crate::aggregate::{enrich_ticket, enrich_tickets, enriched_at, user_view};
use crate::http::{FetchOutcome, GateError};
use crate::records::{PrivilegeGet, Ticket, TicketResponse, User, WebFlight, WebFlightPage};

verus! {

/// The paging parameters of the gateway's flight listing; either may be left
/// out by the client.
pub struct Paging {
    pub page: Option<usize>,
    pub size: Option<usize>,
}

/// A left-out page defaults to the first, a left-out size to ten entries.
pub fn paging_defaults(p: &Paging) -> (r: (usize, usize))
    ensures
        r.0 == if p.page is Some {
            p.page->0
        } else {
            1usize
        },
        r.1 == if p.size is Some {
            p.size->0
        } else {
            10usize
        },
{
    let page = match p.page {
        Some(v) => v,
        None => 1,
    };
    let size = match p.size {
        Some(v) => v,
        None => 10,
    };
    (page, size)
}

/// The gateway's answer to the flight listing: the page as the flight
/// service returned it; a rejected lookup is not found, a transport failure
/// an internal error.
pub fn flights_page_result(auth_ok: bool, outcome: FetchOutcome<WebFlightPage>) -> (r: Result<
    WebFlightPage,
    GateError,
>)
    ensures
        !auth_ok ==> r == Err::<WebFlightPage, GateError>(GateError::Unauthorized),
        auth_ok ==> match outcome {
            FetchOutcome::Success(pg) => r == Ok::<WebFlightPage, GateError>(pg),
            FetchOutcome::Rejected => r == Err::<WebFlightPage, GateError>(GateError::NotFound),
            FetchOutcome::Transport => r == Err::<WebFlightPage, GateError>(GateError::Internal),
        },
{
    if !auth_ok {
        return Err(GateError::Unauthorized);
    }
    match outcome {
        FetchOutcome::Success(pg) => Ok(pg),
        FetchOutcome::Rejected => Err(GateError::NotFound),
        FetchOutcome::Transport => Err(GateError::Internal),
    }
}

/// The gateway's answer to the loyalty lookup: a rejection is the caller's
/// account not being found, a transport failure an internal error.
pub fn privilege_result(auth_ok: bool, outcome: FetchOutcome<PrivilegeGet>) -> (r: Result<
    PrivilegeGet,
    GateError,
>)
    ensures
        !auth_ok ==> r == Err::<PrivilegeGet, GateError>(GateError::Unauthorized),
        auth_ok ==> match outcome {
            FetchOutcome::Success(pg) => r == Ok::<PrivilegeGet, GateError>(pg),
            FetchOutcome::Rejected => r == Err::<PrivilegeGet, GateError>(GateError::NotFound),
            FetchOutcome::Transport => r == Err::<PrivilegeGet, GateError>(GateError::Internal),
        },
{
    if !auth_ok {
        return Err(GateError::Unauthorized);
    }
    match outcome {
        FetchOutcome::Success(pg) => Ok(pg),
        FetchOutcome::Rejected => Err(GateError::NotFound),
        FetchOutcome::Transport => Err(GateError::Internal),
    }
}

/// The gateway's ticket listing: the caller's tickets, each enriched with
/// its flight, one flight-lookup outcome per ticket. A rejected ticket list
/// is not found; transport failures anywhere are internal errors.
pub fn tickets_view(
    auth_ok: bool,
    tickets: &FetchOutcome<Vec<Ticket>>,
    flights: &Vec<FetchOutcome<WebFlight>>,
) -> (r: Result<Vec<TicketResponse>, GateError>)
    requires
        *tickets matches FetchOutcome::Success(ts) ==> flights@.len() == ts@.len(),
    ensures
        !auth_ok ==> r == Err::<Vec<TicketResponse>, GateError>(GateError::Unauthorized),
        auth_ok && *tickets is Rejected ==> r == Err::<Vec<TicketResponse>, GateError>(
            GateError::NotFound,
        ),
        auth_ok && *tickets is Transport ==> r == Err::<Vec<TicketResponse>, GateError>(
            GateError::Internal,
        ),
        auth_ok && *tickets is Success ==> {
            let ts = (*tickets)->Success_0;
            &&& (r is Ok <==> (forall|i: int|
                0 <= i < flights@.len() ==> !(flights@[i] is Transport)))
            &&& (r matches Ok(v) ==> v@.len() == ts@.len() && (forall|i: int|
                0 <= i < ts@.len() ==> enriched_at(ts@[i], flights@[i], v@[i])))
            &&& (r is Err ==> r == Err::<Vec<TicketResponse>, GateError>(GateError::Internal))
        },
{
    if !auth_ok {
        return Err(GateError::Unauthorized);
    }
    match tickets {
        FetchOutcome::Success(ts) => enrich_tickets(ts, flights),
        FetchOutcome::Rejected => Err(GateError::NotFound),
        FetchOutcome::Transport => Err(GateError::Internal),
    }
}

/// The gateway's single-ticket lookup: the ticket enriched with its flight.
/// A rejected ticket lookup is not found; a transport failure, at either
/// lookup, is an internal error.
pub fn ticket_view(
    auth_ok: bool,
    ticket: &FetchOutcome<Ticket>,
    flight: &FetchOutcome<WebFlight>,
) -> (r: Result<TicketResponse, GateError>)
    ensures
        !auth_ok ==> r == Err::<TicketResponse, GateError>(GateError::Unauthorized),
        auth_ok && *ticket is Rejected ==> r == Err::<TicketResponse, GateError>(
            GateError::NotFound,
        ),
        auth_ok && *ticket is Transport ==> r == Err::<TicketResponse, GateError>(
            GateError::Internal,
        ),
        auth_ok && *ticket is Success ==> {
            let t = (*ticket)->Success_0;
            &&& (r is Ok <==> !(*flight is Transport))
            &&& (r matches Ok(tr) ==> enriched_at(t, *flight, tr))
            &&& (r is Err ==> r == Err::<TicketResponse, GateError>(GateError::Internal))
        },
{
    if !auth_ok {
        return Err(GateError::Unauthorized);
    }
    match ticket {
        FetchOutcome::Success(t) => enrich_ticket(t, flight),
        FetchOutcome::Rejected => Err(GateError::NotFound),
        FetchOutcome::Transport => Err(GateError::Internal),
    }
}

/// The gateway's user view: the caller's enriched tickets combined with
/// their loyalty balance, degrading as the aggregation rules say.
pub fn me_view(
    auth_ok: bool,
    privilege: &FetchOutcome<PrivilegeGet>,
    tickets: &FetchOutcome<Vec<Ticket>>,
    flights: &Vec<FetchOutcome<WebFlight>>,
) -> (r: Result<User, GateError>)
    requires
        *tickets matches FetchOutcome::Success(ts) ==> flights@.len() == ts@.len(),
    ensures
        !auth_ok ==> r == Err::<User, GateError>(GateError::Unauthorized),
        auth_ok && *privilege is Transport ==> r == Err::<User, GateError>(GateError::Internal),
        auth_ok && !(*privilege is Transport) && *tickets is Rejected ==> r == Err::<
            User,
            GateError,
        >(GateError::NotFound),
        auth_ok && !(*privilege is Transport) && *tickets is Transport ==> r == Err::<
            User,
            GateError,
        >(GateError::Internal),
        auth_ok && !(*privilege is Transport) && *tickets is Success ==> {
            let ts = (*tickets)->Success_0;
            &&& (r is Ok <==> (forall|i: int|
                0 <= i < flights@.len() ==> !(flights@[i] is Transport)))
            &&& (r matches Ok(u) ==> crate::aggregate::balance_of(*privilege, u.privilege)
                && u.tickets@.len() == ts@.len() && (forall|i: int|
                0 <= i < ts@.len() ==> enriched_at(ts@[i], flights@[i], u.tickets@[i])))
            &&& (r is Err ==> r == Err::<User, GateError>(GateError::Internal))
        },
{
    if !auth_ok {
        return Err(GateError::Unauthorized);
    }
    user_view(privilege, tickets, flights)
}

} // verus!
