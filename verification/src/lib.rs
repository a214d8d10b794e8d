//! A TCP port scanner's core: which probe to send to a port, how to read a
//! service and its version out of the banner that comes back, and how to run
//! the units of a port range under a cap on simultaneous connections.

pub mod error;
pub mod fingerprint;
pub mod orchestrator;
pub mod probe;
pub mod result;
pub mod text;
pub mod unit;
pub mod version;
