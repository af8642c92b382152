//! Client-side logic for the push and management interfaces of Polycom VVX
//! handsets.
//!
//! The crate holds everything that can be decided without touching the
//! network: how a notification is laid out on the wire, how a Digest
//! challenge is answered, and in which order the two requests of a delivery
//! are made. Performing the requests is left to the caller.

pub mod cli;
pub mod errors;
pub mod polyrest;
pub mod provision;
pub mod push;
pub mod tmpl;
