//! A vehicle-registry ledger.
//!
//! A government authority registers vehicles and verifies user profiles;
//! owners list vehicles for sale; verified buyers submit escrowed purchase
//! offers which the owner accepts or rejects; verified inspectors and
//! conformity experts attach reports to vehicles, which the current owner
//! approves.
//!
//! All records live in a keyed store ([`ledger::Ledger`]) standing in for the
//! host platform's account space. The platform services the registry relies
//! on are passed in as plain values: authenticated actor identities
//! ([`identity::Pubkey`]), wall-clock timestamps, and fund balances.
//! Every request is a single all-or-nothing transaction: it either commits
//! in full or returns an error and leaves the ledger unchanged.

pub mod bytes;
pub mod errors;
pub mod identity;
pub mod instructions;
pub mod laws;
pub mod ledger;
pub mod state;
