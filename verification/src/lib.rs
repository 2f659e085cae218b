//! The orchestration core of a travel-booking gateway.
//!
//! A gateway fans out to three backend services — a flight catalog, a ticket
//! inventory and a loyalty ("bonuses") balance — and keeps a purchased ticket
//! and its loyalty effect consistent without a shared transaction: a purchase
//! saga compensates a failed loyalty step by deleting the ticket it created,
//! a cancellation defers its loyalty reversal to an in-process FIFO retry
//! queue, and a background worker drains that queue head-first, stopping at
//! the first failed delivery.
//!
//! The decisions of every saga step, the queue's discipline, the loyalty
//! arithmetic and the read-side aggregations are verified here; the
//! surrounding HTTP, JSON and SQL plumbing hands them plain values and
//! carries their answers out.

pub mod aggregate;
pub mod auth;
pub mod bonuses;
pub mod cancel;
pub mod flights;
pub mod gateway;
pub mod http;
pub mod purchase;
pub mod queue;
pub mod records;
pub mod tickets;
