//! The payload's tokens for the values that are counted in whole numbers:
//! uptime, network traffic and the machine's names.
//!
//! Nothing here reads the machine. Each function takes what was read and
//! appends the tokens that the flags ask for.

pub mod network;
pub mod system;
pub mod uptime;
