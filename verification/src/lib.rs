//! A trustless two-party token-swap escrow for a deterministic, stateless
//! runtime that hands the program an ordered account list and an opaque
//! instruction payload once per transaction.
//!
//! The crate is organised leaves first: the wire codec for instructions
//! ([`instruction`]), the fixed-layout persisted state record ([`state`]),
//! the account model and the operations the escrow asks of the external
//! token ledger ([`accounts`]), the trusted boundary to that ledger and to
//! the runtime's address derivation ([`ledger`]), and the two state
//! transitions themselves ([`processor`]).

pub mod accounts;
pub mod error;
pub mod instruction;
pub mod ledger;
pub mod processor;
pub mod state;
