//! Submission core of a trading client: provider descriptions, per-provider
//! transaction assembly, race aggregation, confirmation polling and
//! connection keep-alive, together with byte helpers for program logs.
pub mod amm;
pub mod assembler;
pub mod codec;
pub mod error;
pub mod executor;
pub mod factory;
pub mod jito;
pub mod keepalive;
pub mod poller;
pub mod provider;
pub mod race;
pub mod timer;
pub mod tip_cache;
pub mod wire;
