//! Verified rules of a creature kept on a shared ledger: its record and
//! economy, the two-phase randomness protocol that fills its inventory, the
//! delegation of its records to an auxiliary venue, and the registration of
//! a recurring random event with a scheduler.

pub mod address;
pub mod delegation;
pub mod draw;
pub mod request;
pub mod schedule;
pub mod store;
pub mod tomo;
