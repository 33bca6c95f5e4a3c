//! Delivery of short text commands to a status bar over port-based message
//! passing, together with the rules of the command line that configures the
//! provider.
//!
//! The crate holds no kernel call and no clock: every exchange with the outside
//! is written as a machine that hands out one action at a time and is told what
//! came of it, so that each decision on the way has a contract.

pub mod cache;
pub mod cli;
pub mod client;
pub mod codec;
pub mod plan;
pub mod resolver;
pub mod stats;
pub mod text;
pub mod transport;
pub mod wire;
