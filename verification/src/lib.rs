//! A deterministic validator for token-vesting records.
//!
//! The library decides whether a proposed state transition of a vesting
//! record is legal.  It is pure: the host loads the enclosing transaction's
//! inputs, outputs and header dependencies, hands them over as plain values,
//! and maps the verdict back to its own pass/fail signal.

pub mod authorization;
pub mod bytes;
pub mod codec;
pub mod error;
pub mod temporal;
pub mod transition;
pub mod tx;
pub mod validator;
pub mod vesting;
