//! Numeric codes of the SSH protocol.

pub mod msg;
