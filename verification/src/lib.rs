//! Verified core of a newsletter-subscription service.
//!
//! The library validates untrusted `name` / `email` form input into a
//! well-formed domain model, and drives the intake pipeline (validate,
//! persist, dispatch a confirmation email, respond) as a pure, verified
//! state machine.  All I/O (HTTP server, database, outbound mail) lives
//! outside the library and only feeds events into the machine.

pub mod domain;
pub mod intake;
