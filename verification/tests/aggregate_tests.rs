use travel_gateway::aggregate::{enrich_ticket, enrich_tickets, health_summary, user_view};
use travel_gateway::gateway::{
    flights_page_result, me_view, paging_defaults, privilege_result, ticket_view, tickets_view,
    Paging,
};
use travel_gateway::http::{is_success_code, response_is_success, FetchOutcome, GateError, Response};
use travel_gateway::records::{PrivilegeGet, Ticket, WebFlight, WebFlightPage};

fn sample_ticket() -> Ticket {
    Ticket {
        id: 0,
        ticket_uid: "17ea0b3b-9efb-4be1-8db5-81512fe77c88".to_string(),
        username: "someone".to_string(),
        flight_number: "AFL31".to_string(),
        price: 50,
        status: "PAID".to_string(),
    }
}

fn sample_flight() -> WebFlight {
    WebFlight {
        flightNumber: "AFL31".to_string(),
        fromAirport: "Sheremetevo".to_string(),
        toAirport: "Pulkovo".to_string(),
        date: "2021-10-08 20:00".to_string(),
        price: 50,
    }
}

fn sample_privilege() -> PrivilegeGet {
    PrivilegeGet {
        balance: 2000,
        status: "BRONZE".to_string(),
        history: Vec::new(),
    }
}

#[test]
fn enrichment_degrades_to_placeholder_on_missing_flight() {
    // A ticket whose flight lookup answers 404 still yields a response,
    // with placeholder airports and the epoch date.
    let ticket = sample_ticket();
    let r = enrich_ticket(&ticket, &FetchOutcome::Rejected).expect("rejection must degrade");
    assert_eq!(r.ticketUid, "17ea0b3b-9efb-4be1-8db5-81512fe77c88");
    assert_eq!(r.flightNumber, "AFL31");
    assert_eq!(r.fromAirport, "Departure airport");
    assert_eq!(r.toAirport, "Destination airport");
    assert_eq!(r.date, "1970-01-01 00:00");
    assert_eq!(r.price, 50);
    assert_eq!(r.status, "PAID");
}

#[test]
fn enrichment_takes_flight_details_on_success() {
    let ticket = sample_ticket();
    let r = enrich_ticket(&ticket, &FetchOutcome::Success(sample_flight())).expect("success");
    assert_eq!(r.fromAirport, "Sheremetevo");
    assert_eq!(r.toAirport, "Pulkovo");
    assert_eq!(r.date, "2021-10-08 20:00");
    assert_eq!(r.status, "PAID");
}

#[test]
fn enrichment_fails_on_transport_error() {
    let ticket = sample_ticket();
    let r = enrich_ticket(&ticket, &FetchOutcome::Transport);
    assert_eq!(r.unwrap_err(), GateError::Internal);
    assert_eq!(GateError::Internal.http_status(), 500);
}

#[test]
fn enrich_list_stops_on_transport_error() {
    let tickets = vec![sample_ticket(), sample_ticket()];
    let flights = vec![
        FetchOutcome::Success(sample_flight()),
        FetchOutcome::Transport,
    ];
    let r = enrich_tickets(&tickets, &flights);
    assert_eq!(r.unwrap_err(), GateError::Internal);

    let flights = vec![FetchOutcome::Success(sample_flight()), FetchOutcome::Rejected];
    let r = enrich_tickets(&tickets, &flights).expect("no transport failure");
    assert_eq!(r.len(), 2);
    assert_eq!(r[0].fromAirport, "Sheremetevo");
    assert_eq!(r[1].fromAirport, "Departure airport");
}

#[test]
fn health_aggregation_reports_each_backend() {
    // Downstream health answers (200, 500, 200) for (flights, tickets,
    // bonuses): the gateway itself is healthy, tickets is not.
    let h = health_summary(Some(200), Some(500), Some(200));
    assert!(h.gateway);
    assert!(h.flights);
    assert!(!h.tickets);
    assert!(h.bonuses);
}

#[test]
fn health_check() {
    // Tickets and flights answer 200, bonuses answers 500: only bonuses is
    // reported down.
    let h = health_summary(Some(200), Some(200), Some(500));
    assert!(h.gateway);
    assert!(h.flights);
    assert!(h.tickets);
    assert!(!h.bonuses);
}

#[test]
fn health_counts_no_answer_as_down() {
    let h = health_summary(None, Some(200), Some(404));
    assert!(h.gateway);
    assert!(!h.flights);
    assert!(h.tickets);
    assert!(!h.bonuses);
}

#[test]
fn user_view_degrades_only_on_rejected_privilege() {
    let tickets = vec![sample_ticket()];
    let flights = vec![FetchOutcome::Success(sample_flight())];

    // Rejected loyalty lookup: zero balance, generic tier, tickets kept.
    let u = user_view(
        &FetchOutcome::Rejected,
        &FetchOutcome::Success(tickets.clone()),
        &flights,
    );
    let u = u.expect("rejected loyalty must degrade");
    assert_eq!(u.privilege.balance, 0);
    assert_eq!(u.privilege.status, "Generic status");
    assert_eq!(u.tickets.len(), 1);

    // Successful loyalty lookup: balance taken over.
    let u = user_view(
        &FetchOutcome::Success(sample_privilege()),
        &FetchOutcome::Success(tickets.clone()),
        &flights,
    )
    .expect("all lookups fine");
    assert_eq!(u.privilege.balance, 2000);
    assert_eq!(u.privilege.status, "BRONZE");

    // Transport failure of the loyalty lookup fails the request.
    let r = user_view(
        &FetchOutcome::Transport,
        &FetchOutcome::Success(tickets.clone()),
        &flights,
    );
    assert_eq!(r.unwrap_err(), GateError::Internal);

    // Rejected ticket list fails the whole request as not found.
    let r = user_view(
        &FetchOutcome::Success(sample_privilege()),
        &FetchOutcome::Rejected,
        &Vec::new(),
    );
    assert_eq!(r.unwrap_err(), GateError::NotFound);
}

#[test]
fn get_flights() {
    // The gateway's flight listing passes a fetched page through untouched.
    let page = WebFlightPage {
        page: 1,
        pageSize: 1,
        totalElements: 1,
        items: vec![sample_flight()],
    };
    let r = flights_page_result(true, FetchOutcome::Success(page)).expect("fetched page");
    assert_eq!(r.page, 1);
    assert_eq!(r.pageSize, 1);
    assert_eq!(r.totalElements, 1);
    assert_eq!(r.items.len(), 1);
    assert_eq!(r.items[0].flightNumber, "AFL31");

    let failed: Result<WebFlightPage, GateError> =
        flights_page_result(true, FetchOutcome::Rejected);
    assert_eq!(failed.unwrap_err(), GateError::NotFound);
    let failed: Result<WebFlightPage, GateError> =
        flights_page_result(true, FetchOutcome::Transport);
    assert_eq!(failed.unwrap_err(), GateError::Internal);
    let refused: Result<WebFlightPage, GateError> =
        flights_page_result(false, FetchOutcome::Transport);
    assert_eq!(refused.unwrap_err(), GateError::Unauthorized);
}

#[test]
fn paging_defaults_fill_in_page_one_of_ten() {
    let (page, size) = paging_defaults(&Paging {
        page: None,
        size: None,
    });
    assert_eq!((page, size), (1, 10));
    let (page, size) = paging_defaults(&Paging {
        page: Some(3),
        size: Some(25),
    });
    assert_eq!((page, size), (3, 25));
}

#[test]
fn privilege_lookup_mappings() {
    let r = privilege_result(true, FetchOutcome::Success(sample_privilege())).expect("found");
    assert_eq!(r.balance, 2000);
    let r: Result<PrivilegeGet, GateError> = privilege_result(true, FetchOutcome::Rejected);
    assert_eq!(r.unwrap_err(), GateError::NotFound);
    let r: Result<PrivilegeGet, GateError> = privilege_result(true, FetchOutcome::Transport);
    assert_eq!(r.unwrap_err(), GateError::Internal);
    let r: Result<PrivilegeGet, GateError> = privilege_result(false, FetchOutcome::Rejected);
    assert_eq!(r.unwrap_err(), GateError::Unauthorized);
}

#[test]
fn ticket_views_map_errors_by_kind() {
    let flights = vec![FetchOutcome::Success(sample_flight())];
    let r = tickets_view(
        true,
        &FetchOutcome::Success(vec![sample_ticket()]),
        &flights,
    )
    .expect("listed");
    assert_eq!(r.len(), 1);
    let r = tickets_view(true, &FetchOutcome::Rejected, &Vec::new());
    assert_eq!(r.unwrap_err(), GateError::NotFound);
    let r = tickets_view(true, &FetchOutcome::Transport, &Vec::new());
    assert_eq!(r.unwrap_err(), GateError::Internal);

    let r = ticket_view(
        true,
        &FetchOutcome::Success(sample_ticket()),
        &FetchOutcome::Rejected,
    )
    .expect("degrades");
    assert_eq!(r.fromAirport, "Departure airport");
    let r = ticket_view(true, &FetchOutcome::Rejected, &FetchOutcome::Rejected);
    assert_eq!(r.unwrap_err(), GateError::NotFound);

    let r = me_view(
        false,
        &FetchOutcome::Rejected,
        &FetchOutcome::Rejected,
        &Vec::new(),
    );
    assert_eq!(r.unwrap_err(), GateError::Unauthorized);
}

#[test]
fn success_codes_are_exactly_200_201_204() {
    assert!(is_success_code(200));
    assert!(is_success_code(201));
    assert!(is_success_code(204));
    assert!(!is_success_code(404));
    assert!(!is_success_code(500));
    assert!(!is_success_code(302));
    let r = Response {
        code: 204,
        body: String::new(),
        header: Vec::new(),
    };
    assert!(response_is_success(&r));
    let r = Response {
        code: 403,
        body: String::new(),
        header: Vec::new(),
    };
    assert!(!response_is_success(&r));
}
