//! The state of a client and the functions that advance it.

pub mod auth;
pub mod channel;
pub mod client_event;
pub mod client_state;
pub mod config;
pub mod conn;
pub mod ident;
pub mod negotiate;
pub mod pump;
pub mod recv;
