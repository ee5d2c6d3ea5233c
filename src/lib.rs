//! Escrow and settlement engine for a commerce platform: escrowed payments with
//! a fee split, confidential payment sessions, and encrypted payouts and
//! subscriptions. Every operation is a verified function on plain records; the
//! ledger runtime, token transfers and the clock stay with the caller, which
//! hands in the current time and the outcome of each outside step.

pub mod types;
pub mod escrow;
pub mod ledger;
pub mod session;
pub mod confidential;
pub mod payout;
pub mod subscription;
