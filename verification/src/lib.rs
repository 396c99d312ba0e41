//! A dead-man's-switch escrow: a depositor locks value against accounting
//! shares and keeps control for as long as they check in; once the inactivity
//! window lapses, the named beneficiary may claim what is still locked.
//!
//! The crate holds the state machine and its accounting rules. Every
//! transition is a function from the records it touches, the caller and the
//! ledger time to the updated records and the list of value movements that the
//! surrounding program has to carry out.

pub mod identity;
pub mod state;
pub mod clock;
pub mod guard;
pub mod action;
pub mod context;
pub mod engine;
pub mod flows;
pub mod ledger;
pub mod liveness;
