//! Remittance escrow and settlement: funds are taken into custody for a
//! registered payout agent, a platform fee is fixed at creation, and the net
//! amount is released once the remittance has been authorized and settled.
//!
//! The crate is a pure state machine. It never moves funds, verifies an
//! identity or emits an event itself: every call names the caller that the
//! host has verified, returns the transfer and the event that the host must
//! carry out, and leaves the state untouched when it is refused.
//!
//! - [`engine`] holds the executable engine, [`snapshot`] its stored form.
//! - [`model`] is the state machine that the engine implements, call by call.
//! - [`laws`] states what holds of the machine whatever is called on it:
//!   the transition table, the settlement guard, the conservation of funds,
//!   the administrators and the circuit breaker.
//! - [`preservation`] shows that every call keeps the state invariant.
//! - [`fees`], [`registry`], [`guard`], [`types`], [`effects`] and [`error`]
//!   are the parts.

pub mod effects;
pub mod engine;
pub mod error;
pub mod fees;
pub mod guard;
pub mod laws;
pub mod model;
pub mod preservation;
pub mod registry;
pub mod snapshot;
pub mod types;
