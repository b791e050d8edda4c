//! A verified core for a sidecar-backed key-value state store.
//!
//! The library holds the decision logic of the adapter: parsing the
//! health-check port from its textual configuration, building the health
//! endpoint URL, the bounded retry policies for the readiness probe and the
//! RPC dial, resolution of the store name, and the payload policy that treats
//! an empty byte payload as an absent value. The surrounding process performs
//! the actual HTTP and RPC calls and feeds their outcomes to these functions.

pub mod config;
pub mod errors;
pub mod retry;
pub mod store;
