//! Derives a TCP port and a private IPv4 address for a blockchain node from
//! its name, `{role}-{chain}-{network}-{instance}`, with no outside state.

pub mod text;
pub mod tables;
pub mod name;
pub mod encode;
pub mod laws;

pub use text::NameError;
pub use name::NodeName;
pub use encode::{Ipv4, NodeAddress, Port, calculate_address, calculate_port, decode_port};
pub use tables::{ChainId, Network, Role};
