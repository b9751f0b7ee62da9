//! ARP cache poisoning and frame relay for a host that places itself between
//! a target and its gateway on one Ethernet segment.
//!
//! The library builds the forged ARP replies of a poisoning cycle and decides,
//! frame by frame, what the relay forwards and how it is re-addressed. Opening
//! the link, sending, receiving and waiting are left to the caller.

pub mod addr;
pub mod wire;
mod packet;
pub mod builder;
pub mod config;
pub mod link;
pub mod poison;
pub mod relay;

pub use addr::{Ipv4Addr, MacAddr};
pub use builder::{build_arp_reply, create_arp_packet};
pub use config::AddressConfig;
pub use poison::POISON_INTERVAL_SECS;
