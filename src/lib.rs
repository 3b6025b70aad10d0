//! A two-account money transfer run as a saga: a withdraw step, a deposit
//! step and, when the deposit cannot be made, a compensating refund, each one
//! a ledger operation on an explicit snapshot.
use vstd::prelude::*;

pub mod activities;
pub mod bank;
pub mod workflow;

verus! {

} // verus!
