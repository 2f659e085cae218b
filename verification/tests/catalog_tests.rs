use travel_gateway::flights::{airport_label, flight_to_webflight, flights_page, page_slice};
use travel_gateway::records::{Airport, Flight, Ticket};
use travel_gateway::tickets::{cancel_ticket_record, ticket_if_owner, tickets_of_user};

fn airport() -> Airport {
    Airport {
        id: 1,
        name: "Airport".to_string(),
        city: "City".to_string(),
        country: Some("Country".to_string()),
    }
}

fn flight(n: i32) -> Flight {
    Flight {
        id: n,
        flight_number: format!("AFL{}", n),
        datetime: "2020-05-17 12:13".to_string(),
        from_airport_id: 1,
        to_airport_id: 2,
        price: 1500,
    }
}

fn ticket(uid: &str, username: &str) -> Ticket {
    Ticket {
        id: 0,
        ticket_uid: uid.to_string(),
        username: username.to_string(),
        flight_number: "AFL31".to_string(),
        price: 50,
        status: "PAID".to_string(),
    }
}

#[test]
fn get_flight() {
    // One catalog flight, page 1 of size 5: the page holds its client view,
    // with both airports labeled "City Airport".
    let catalog = vec![flight(31)];
    let paged = page_slice(&catalog, 1, 5);
    assert_eq!(paged.len(), 1);
    let web = flight_to_webflight(&paged[0], &airport(), &airport());
    assert_eq!(web.flightNumber, "AFL31");
    assert_eq!(web.fromAirport, "City Airport");
    assert_eq!(web.toAirport, "City Airport");
    assert_eq!(web.date, "2020-05-17 12:13");
    assert_eq!(web.price, 1500);
    let page = flights_page(1, 5, catalog.len(), vec![web]);
    assert_eq!(page.page, 1);
    assert_eq!(page.pageSize, 5);
    assert_eq!(page.totalElements, 1);
    assert_eq!(page.items.len(), 1);
}

#[test]
fn airport_labels_join_city_and_name() {
    assert_eq!(airport_label(&airport()), "City Airport");
}

#[test]
fn paging_slices_the_catalog() {
    let catalog: Vec<Flight> = (1..=7).map(flight).collect();
    let first = page_slice(&catalog, 1, 3);
    assert_eq!(
        first.iter().map(|f| f.id).collect::<Vec<_>>(),
        vec![1, 2, 3]
    );
    let second = page_slice(&catalog, 2, 3);
    assert_eq!(
        second.iter().map(|f| f.id).collect::<Vec<_>>(),
        vec![4, 5, 6]
    );
    let third = page_slice(&catalog, 3, 3);
    assert_eq!(third.iter().map(|f| f.id).collect::<Vec<_>>(), vec![7]);
    // A page past the end of the catalog is empty.
    let beyond = page_slice(&catalog, 4, 3);
    assert!(beyond.is_empty());
}

#[test]
fn list_tickets() {
    // The listing keeps only the caller's tickets, in storage order.
    let stored = vec![
        ticket("17ea0b3b-9efb-4be1-8db5-81512fe77c88", "someone"),
        ticket("914619a4-ade7-43cb-b086-9e88ca35a728", "someone else"),
        ticket("27ea0b3b-9efb-4be1-8db5-81512fe77c88", "someone"),
    ];
    let mine = tickets_of_user(&stored, &"someone".to_string());
    assert_eq!(mine.len(), 2);
    assert_eq!(mine[0].ticket_uid, "17ea0b3b-9efb-4be1-8db5-81512fe77c88");
    assert_eq!(mine[0].username, "someone");
    assert_eq!(mine[0].flight_number, "AFL31");
    assert_eq!(mine[0].price, 50);
    assert_eq!(mine[0].status, "PAID");
    assert_eq!(mine[1].ticket_uid, "27ea0b3b-9efb-4be1-8db5-81512fe77c88");
}

#[test]
fn ticket_lookup_is_owner_only() {
    let t = ticket("17ea0b3b-9efb-4be1-8db5-81512fe77c88", "someone");
    let found = ticket_if_owner(t, &"someone".to_string());
    assert!(found.is_some());
    let t = ticket("17ea0b3b-9efb-4be1-8db5-81512fe77c88", "someone");
    let hidden = ticket_if_owner(t, &"intruder".to_string());
    assert!(hidden.is_none());
}

#[test]
fn cancelling_a_record_only_moves_its_status() {
    let t = ticket("17ea0b3b-9efb-4be1-8db5-81512fe77c88", "someone");
    let c = cancel_ticket_record(t);
    assert_eq!(c.status, "CANCELED");
    assert_eq!(c.ticket_uid, "17ea0b3b-9efb-4be1-8db5-81512fe77c88");
    assert_eq!(c.username, "someone");
    assert_eq!(c.price, 50);
}
