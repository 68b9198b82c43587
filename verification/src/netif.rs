//! Network interfaces: what the system reports of them, turned into events.

pub mod dynamic;
pub mod getifaddrs;
pub mod network_interface;
