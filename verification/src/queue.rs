use vstd::prelude::*;

verus! {

/// One pending compensation: reverse the loyalty effect of `ticket_uid`,
/// using the auth token the cancelling caller presented.
pub struct QueuedRequest {
    pub ticket_uid: String,
    pub auth_token: String,
}

impl Clone for QueuedRequest {
    fn clone(&self) -> (r: Self)
        ensures
            r == *self,
    {
        QueuedRequest {
            ticket_uid: self.ticket_uid.clone(),
            auth_token: self.auth_token.clone(),
        }
    }
}

/// The in-process FIFO list of pending compensations. Entries are appended at
/// the tail by cancellations and drained strictly from the head by the worker.
pub struct CompensationQueue {
    entries: Vec<QueuedRequest>,
}

impl View for CompensationQueue {
    type V = Seq<QueuedRequest>;

    closed spec fn view(&self) -> Seq<QueuedRequest> {
        self.entries@
    }
}

/// One drain attempt on the head of the queue: a delivered compensation
/// leaves the tail, a failed one leaves the whole queue untouched.
pub open spec fn spec_drain_step(entries: Seq<QueuedRequest>, delivered: bool) -> Seq<
    QueuedRequest,
> {
    if delivered {
        entries.drop_first()
    } else {
        entries
    }
}

/// One wake of the worker, given the delivery outcome of each attempt it
/// would make in order: it drains from the head while deliveries succeed and
/// stops at the first failure, leaving everything behind it untouched.
pub open spec fn spec_drain_cycle(entries: Seq<QueuedRequest>, outcomes: Seq<bool>) -> Seq<
    QueuedRequest,
>
    decreases entries.len(),
{
    if entries.len() == 0 || outcomes.len() == 0 {
        entries
    } else if !outcomes[0] {
        entries
    } else {
        spec_drain_cycle(entries.drop_first(), outcomes.drop_first())
    }
}

impl CompensationQueue {
    /// The queue starts empty: a restart loses all pending compensations.
    pub fn new() -> (q: Self)
        ensures
            q@ == Seq::<QueuedRequest>::empty(),
    {
        CompensationQueue { entries: Vec::new() }
    }

    pub fn len(&self) -> (n: usize)
        ensures
            n == self@.len(),
    {
        self.entries.len()
    }

    pub fn is_empty(&self) -> (b: bool)
        ensures
            b == (self@.len() == 0),
    {
        self.entries.len() == 0
    }

    /// The entry the worker must attempt next, if any.
    pub fn head(&self) -> (h: Option<QueuedRequest>)
        ensures
            self@.len() == 0 ==> h is None,
            self@.len() > 0 ==> h == Some(self@[0]),
    {
        if self.entries.len() == 0 {
            None
        } else {
            Some(self.entries[0].clone())
        }
    }

    /// A cancellation appends its compensation at the tail.
    pub fn push(&mut self, e: QueuedRequest)
        ensures
            final(self)@ == old(self)@.push(e),
    {
        self.entries.push(e);
    }

    /// The worker reports the outcome of its attempt on the head: a delivered
    /// compensation is removed, a failed one stays at the head (and blocks
    /// everything behind it until it succeeds).
    pub fn worker_step(&mut self, delivered: bool)
        requires
            old(self)@.len() > 0,
        ensures
            final(self)@ == spec_drain_step(old(self)@, delivered),
    {
        if delivered {
            self.entries.remove(0);
            proof {
                assert(self@ =~= old(self)@.drop_first());
            }
        }
    }
}

/// What counts as a delivered compensation: the loyalty reversal's delete
/// answers 204 on success, so exactly a 204 removes the entry; any other
/// answer, and a missing one, is a failure and stops the drain — the entry
/// stays queued until the reversal really happened.
pub fn reversal_delivered(code: Option<u16>) -> (b: bool)
    ensures
        b == (code == Some(204u16)),
{
    match code {
        Some(c) => c == 204,
        None => false,
    }
}

/// Head-of-line blocking: when the head of the queue fails to deliver, a
/// whole wake of the worker leaves every entry in place, in its order.
pub proof fn lemma_head_of_line_blocking(entries: Seq<QueuedRequest>, outcomes: Seq<bool>)
    requires
        entries.len() > 0,
        outcomes.len() > 0,
        !outcomes[0],
    ensures
        spec_drain_cycle(entries, outcomes) == entries,
{
}

/// A wake of the worker never reorders or skips: what remains afterwards is
/// exactly a suffix of the queue it started with.
pub proof fn lemma_drain_keeps_order(entries: Seq<QueuedRequest>, outcomes: Seq<bool>)
    ensures
        spec_drain_cycle(entries, outcomes).len() <= entries.len(),
        forall|i: int|
            0 <= i < spec_drain_cycle(entries, outcomes).len() ==> spec_drain_cycle(
                entries,
                outcomes,
            )[i] == entries[entries.len() - spec_drain_cycle(entries, outcomes).len() + i],
    decreases entries.len(),
{
    if entries.len() == 0 || outcomes.len() == 0 {
    } else if !outcomes[0] {
    } else {
        lemma_drain_keeps_order(entries.drop_first(), outcomes.drop_first());
    }
}

/// When every attempt would deliver and the worker has an outcome for each
/// entry, a single wake drains the queue completely.
pub proof fn lemma_drain_all(entries: Seq<QueuedRequest>, outcomes: Seq<bool>)
    requires
        outcomes.len() >= entries.len(),
        forall|i: int| 0 <= i < outcomes.len() ==> outcomes[i],
    ensures
        spec_drain_cycle(entries, outcomes).len() == 0,
    decreases entries.len(),
{
    if entries.len() == 0 {
    } else {
        lemma_drain_all(entries.drop_first(), outcomes.drop_first());
    }
}

} // verus!
