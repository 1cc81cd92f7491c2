//! Server side of a two-party ECDSA service: the per-session artifact store
//! and the round-by-round state machine of key generation, signing and
//! share rotation.

pub mod kind;
pub mod store;
pub mod error;
pub mod round;
pub mod ecdsa;
pub mod laws;
