//! The core of a DNS resolver for an HTTP client that builds its engine on
//! first use and shares it among all lookups.
//!
//! Reading the system's configuration, building the engine and sending a
//! query are the caller's business: the first two are handed in as routines,
//! the third is made by the caller with what `resolve` returns. What is kept
//! when, what is built when, and what a lookup yields is decided here.
//!
//! - `system_conf`: the cached snapshot of the system's DNS configuration.
//! - `resolver`: the state cell with the shared engine, and the part of a
//!   lookup that needs exclusive access to it.
//! - `address`: the addresses that a lookup yields, as a single-pass
//!   sequence.
//! - `protocol`: concurrent lookups as a model, with the laws that hold of
//!   every interleaving.

pub mod address;
pub mod protocol;
pub mod resolver;
pub mod system_conf;
