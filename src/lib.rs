//! Operator registration: resolving the network's contract addresses,
//! building a signed, time-bounded attestation and driving its submission
//! to the stake registry, one decision at a time.
pub mod attestation;
pub mod config;
pub mod error;
pub mod hex;
pub mod session;
pub mod topology;
