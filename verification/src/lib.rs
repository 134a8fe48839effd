//! A virtual machine for a minimal eight-instruction language over a
//! bounded tape of bytes.
//!
//! `symbol` decodes source characters, `interpreter` holds the execution
//! engine with its mathematical model, and `driver` runs a whole program
//! against a prepared input.

pub mod driver;
pub mod interpreter;
pub mod symbol;
