use vstd::prelude::*;

verus! {

/// A loyalty account: status tier and point balance, keyed by username.
#[derive(Debug)]
pub struct Privilege {
    pub id: i32,
    pub username: String,
    pub status: String,
    pub balance: i32,
}

/// One ledger entry of a loyalty account. The timestamp is carried as the
/// already-formatted text the services exchange.
#[derive(Debug)]
pub struct PrivilegeHistory {
    pub id: i32,
    pub privilege_id: i32,
    pub ticket_uid: String,
    pub datetime: String,
    pub balance_diff: i32,
    pub operation_type: String,
}

/// A ledger entry to be appended to a loyalty account.
#[derive(Debug)]
pub struct PrivilegeHistoryPost {
    pub username: String,
    pub ticket_uid: String,
    pub balance_diff: i32,
    pub operation_type: String,
}

/// The loyalty view returned to a caller: balance, tier and ledger.
#[derive(Debug)]
pub struct PrivilegeGet {
    pub balance: i32,
    pub status: String,
    pub history: Vec<PrivilegeHistoryGet>,
}

/// One ledger entry as it appears in the loyalty view.
#[allow(non_snake_case)]
#[derive(Debug)]
pub struct PrivilegeHistoryGet {
    pub date: String,
    pub ticketUid: String,
    pub balanceDiff: i32,
    pub operationType: String,
}

/// Balance and tier alone, as embedded in aggregated responses.
#[derive(Debug)]
pub struct Balance {
    pub balance: i32,
    pub status: String,
}

/// The aggregated user view: the caller's enriched tickets plus their balance.
#[derive(Debug)]
pub struct User {
    pub tickets: Vec<TicketResponse>,
    pub privilege: Balance,
}

/// The body posted to the bonus service when a ticket is purchased.
#[derive(Debug)]
pub struct PurchasePost {
    pub ticket_uid: String,
    pub price: i32,
    pub paid_from_balance: bool,
}

/// The bonus service's answer to a purchase: the money/points split and the
/// updated balance.
#[derive(Debug)]
pub struct PurchaseResponse {
    pub paid_by_money: i32,
    pub paid_by_bonuses: i32,
    pub balance: i32,
    pub status: String,
}

/// A flight record as the flight service stores it. The departure time is
/// carried as the already-formatted text the services exchange.
#[derive(Debug)]
pub struct Flight {
    pub id: i32,
    pub flight_number: String,
    pub datetime: String,
    pub from_airport_id: i32,
    pub to_airport_id: i32,
    pub price: i32,
}

/// An airport record.
#[derive(Debug)]
pub struct Airport {
    pub id: i32,
    pub name: String,
    pub city: String,
    pub country: Option<String>,
}

/// A flight as shown to clients: airports resolved to labels.
#[allow(non_snake_case)]
#[derive(Debug)]
pub struct WebFlight {
    pub flightNumber: String,
    pub fromAirport: String,
    pub toAirport: String,
    pub date: String,
    pub price: i32,
}

/// One page of the flight catalog.
#[allow(non_snake_case)]
#[derive(Debug)]
pub struct WebFlightPage {
    pub page: usize,
    pub pageSize: usize,
    pub totalElements: usize,
    pub items: Vec<WebFlight>,
}

/// A ticket record as the ticket service stores it.
#[derive(Debug)]
pub struct Ticket {
    pub id: i32,
    pub ticket_uid: String,
    pub username: String,
    pub flight_number: String,
    pub price: i32,
    pub status: String,
}

/// The body posted to the ticket service to create a ticket.
#[derive(Debug)]
pub struct TicketPost {
    pub flight_number: String,
    pub price: i32,
}

/// A purchase request as a client sends it to the gateway.
#[allow(non_snake_case)]
#[derive(Debug)]
pub struct TicketPostBalance {
    pub flightNumber: String,
    pub price: i32,
    pub paidFromBalance: bool,
}

/// A ticket enriched with the details of its flight.
#[allow(non_snake_case)]
#[derive(Debug)]
pub struct TicketResponse {
    pub ticketUid: String,
    pub flightNumber: String,
    pub fromAirport: String,
    pub toAirport: String,
    pub date: String,
    pub price: i32,
    pub status: String,
}

/// The answer to a successful purchase: the enriched ticket, the money/points
/// split and the updated balance.
#[allow(non_snake_case)]
#[derive(Debug)]
pub struct CombinedPurchaseResponse {
    pub ticketUid: String,
    pub flightNumber: String,
    pub fromAirport: String,
    pub toAirport: String,
    pub date: String,
    pub price: i32,
    pub paidByMoney: i32,
    pub paidByBonuses: i32,
    pub status: String,
    pub privilege: Balance,
}

/// The aggregated health report of the gateway and the three backends.
#[derive(Clone, Copy, Debug, PartialEq, Eq, Structural)]
pub struct HealthCheckResponse {
    pub gateway: bool,
    pub flights: bool,
    pub tickets: bool,
    pub bonuses: bool,
}

impl Clone for Ticket {
    fn clone(&self) -> (r: Self)
        ensures
            r == *self,
    {
        Ticket {
            id: self.id,
            ticket_uid: self.ticket_uid.clone(),
            username: self.username.clone(),
            flight_number: self.flight_number.clone(),
            price: self.price,
            status: self.status.clone(),
        }
    }
}

impl Clone for Flight {
    fn clone(&self) -> (r: Self)
        ensures
            r == *self,
    {
        Flight {
            id: self.id,
            flight_number: self.flight_number.clone(),
            datetime: self.datetime.clone(),
            from_airport_id: self.from_airport_id,
            to_airport_id: self.to_airport_id,
            price: self.price,
        }
    }
}

impl Clone for WebFlight {
    fn clone(&self) -> (r: Self)
        ensures
            r == *self,
    {
        WebFlight {
            flightNumber: self.flightNumber.clone(),
            fromAirport: self.fromAirport.clone(),
            toAirport: self.toAirport.clone(),
            date: self.date.clone(),
            price: self.price,
        }
    }
}

} // verus!
