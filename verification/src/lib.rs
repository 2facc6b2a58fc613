//! Failure reasons of a transaction pool: what each one says, which of them
//! may pass with time, and how other error types turn into them.

pub mod decimal;
pub mod error;
pub mod payload;
