//! A client-side engine for submitting signed transactions to a remote ledger
//! over an RPC transport, tolerating transient failures through bounded retry
//! with exponential backoff.
//!
//! The engine itself performs no I/O.  A submission is a state machine
//! ([`transaction_service::Submission`]) whose phase tells the driver what to
//! do next (wait, fetch a fresh reference value, send, confirm); the driver
//! performs the action against its transport and reports the outcome as an
//! event.  Every transition, the backoff schedule, and the classification of
//! failures as retriable or fatal are verified against a mathematical model
//! of the machine.

pub mod error;
pub mod laws;
pub mod text;
pub mod transaction_service;
