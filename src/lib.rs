//! Compiles one desired network interface into the connection profiles that
//! a network-configuration daemon must hold, and computes the IP settings
//! that undo a partially applied change.
pub mod connection;
pub mod iface;
pub mod laws;
pub mod nm;
pub mod revert;
