use vstd::prelude::*;
use vstd::string::StringExecFns;

use crate::records::{Airport, Flight, WebFlight, WebFlightPage};

verus! {

/// The paging parameters of the flight catalog listing. Pages are counted
/// from one.
pub struct Paging {
    pub page: usize,
    pub size: usize,
}

/// An airport's label as shown to clients: its city, a space, its name.
pub fn airport_label(a: &Airport) -> (s: String)
    ensures
        s@ == a.city@ + " "@ + a.name@,
{
    a.city.clone().concat(" ").concat(a.name.as_str())
}

/// A flight as shown to clients: both airports resolved to their labels, the
/// departure time and price carried over.
pub fn flight_to_webflight(flight: &Flight, from: &Airport, to: &Airport) -> (w: WebFlight)
    ensures
        w.flightNumber@ == flight.flight_number@,
        w.fromAirport@ == from.city@ + " "@ + from.name@,
        w.toAirport@ == to.city@ + " "@ + to.name@,
        w.date@ == flight.datetime@,
        w.price == flight.price,
{
    WebFlight {
        flightNumber: flight.flight_number.clone(),
        fromAirport: airport_label(from),
        toAirport: airport_label(to),
        date: flight.datetime.clone(),
        price: flight.price,
    }
}

/// The half-open index range a page covers in a catalog of `len` flights:
/// page `p` starts at `(p - 1) * size`, ends at `p * size`, and both ends
/// are capped by the catalog's length.
pub open spec fn spec_page_bounds(page: int, size: int, len: int) -> (int, int) {
    let hi = if page * size < len {
        page * size
    } else {
        len
    };
    let lo = if (page - 1) * size < hi {
        (page - 1) * size
    } else {
        hi
    };
    (lo, hi)
}

/// The flights of one page of the catalog, in catalog order.
pub fn page_slice(flights: &Vec<Flight>, page: usize, size: usize) -> (r: Vec<Flight>)
    requires
        1 <= page,
        page * size <= usize::MAX,
    ensures
        r@ == flights@.subrange(
            spec_page_bounds(page as int, size as int, flights@.len() as int).0,
            spec_page_bounds(page as int, size as int, flights@.len() as int).1,
        ),
{
    let len = flights.len();
    assert((page - 1) * size <= page * size) by (nonlinear_arith)
        requires
            1 <= page,
            0 <= size,
    ;
    let cap = page * size;
    let end: usize = if cap < len {
        cap
    } else {
        len
    };
    let start: usize = (page - 1) * size;
    let mut out: Vec<Flight> = Vec::new();
    if start >= end {
        proof {
            assert(out@ =~= flights@.subrange(
                spec_page_bounds(page as int, size as int, flights@.len() as int).0,
                spec_page_bounds(page as int, size as int, flights@.len() as int).1,
            ));
        }
        return out;
    }
    let mut i: usize = start;
    while i < end
        invariant
            start <= i <= end,
            end <= flights@.len(),
            out@ == flights@.subrange(start as int, i as int),
        decreases end - i,
    {
        out.push(flights[i].clone());
        proof {
            assert(out@ =~= flights@.subrange(start as int, i + 1 as int));
        }
        i = i + 1;
    }
    out
}

/// One page of the flight catalog, as answered to the client: the requested
/// page and size, the catalog's total, and the page's flights.
pub fn flights_page(page: usize, size: usize, total: usize, items: Vec<WebFlight>) -> (p:
    WebFlightPage)
    ensures
        p.page == page,
        p.pageSize == size,
        p.totalElements == total,
        p.items == items,
{
    WebFlightPage { page, pageSize: size, totalElements: total, items }
}

} // verus!
