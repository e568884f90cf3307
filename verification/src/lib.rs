//! Core of an on-device fleet-management agent: the codec of the remote-access
//! forwarder, the state machine that drives an A/B system update, and the
//! reconciler of container resources. Every function carries a contract that
//! Verus proves; calls into other crates stand behind wrappers whose contracts
//! are stated and believed.

pub mod base16;
pub mod containers;
pub mod forwarder;
pub mod ident;
pub mod ota;
pub mod text;
