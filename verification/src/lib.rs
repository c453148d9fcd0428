//! A small reservation-lookup service core, written to contrast two request
//! handlers over one in-memory store: one that returns any user's
//! reservations to any caller, and one that first checks that the caller's
//! asserted identity matches the owner of the requested records.

pub mod handlers;
pub mod laws;
pub mod reservation;
pub mod seed;
pub mod store;
