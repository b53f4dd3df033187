//! The node's place on the network.
pub mod ipv6;
pub mod node;
