use vstd::prelude::*;

use crate::records::Ticket;

verus! {

/// The predicate the ticket service lists by: the ticket belongs to the
/// named user.
pub open spec fn owned_by(username: Seq<char>) -> spec_fn(Ticket) -> bool {
    |t: Ticket| t.username@ == username
}

/// The user's own tickets, in storage order: the list filtered to the
/// caller's username.
pub fn tickets_of_user(tickets: &Vec<Ticket>, username: &String) -> (r: Vec<Ticket>)
    ensures
        r@ == tickets@.filter(owned_by(username@)),
{
    let mut out: Vec<Ticket> = Vec::new();
    let mut i: usize = 0;
    proof {
        assert(tickets@.subrange(0, 0).filter(owned_by(username@)) =~= Seq::<Ticket>::empty()) by {
            reveal(Seq::filter);
        }
    }
    while i < tickets.len()
        invariant
            i <= tickets@.len(),
            out@ == tickets@.subrange(0, i as int).filter(owned_by(username@)),
        decreases tickets@.len() - i,
    {
        let t = &tickets[i];
        proof {
            let pred = owned_by(username@);
            let pre = tickets@.subrange(0, i as int);
            let e = tickets@[i as int];
            assert(tickets@.subrange(0, i + 1 as int) =~= pre.push(e));
            pre.lemma_filter_push(e, pred);
        }
        if t.username == *username {
            out.push(t.clone());
        }
        i = i + 1;
    }
    proof {
        assert(tickets@.subrange(0, tickets@.len() as int) =~= tickets@);
    }
    out
}

/// The ticket service answers a lookup only to its owner; any other caller
/// learns nothing beyond "not found".
pub fn ticket_if_owner(ticket: Ticket, username: &String) -> (r: Option<Ticket>)
    ensures
        ticket.username@ == username@ ==> r == Some(ticket),
        ticket.username@ != username@ ==> r is None,
{
    if ticket.username == *username {
        Some(ticket)
    } else {
        None
    }
}

/// Cancelling a ticket record moves it to the canceled state and changes
/// nothing else; the record of a paid ticket can move nowhere else.
pub fn cancel_ticket_record(ticket: Ticket) -> (r: Ticket)
    ensures
        r.status@ == "CANCELED"@,
        r.id == ticket.id,
        r.ticket_uid@ == ticket.ticket_uid@,
        r.username@ == ticket.username@,
        r.flight_number@ == ticket.flight_number@,
        r.price == ticket.price,
{
    Ticket {
        id: ticket.id,
        ticket_uid: ticket.ticket_uid,
        username: ticket.username,
        flight_number: ticket.flight_number,
        price: ticket.price,
        status: "CANCELED".to_owned(),
    }
}

} // verus!
