//! Verified logic of a USB host controller driver for a small microcontroller,
//! together with the SCSI command layer and the network-interface listing that
//! accompany it.
//!
//! Nothing in this crate touches hardware. Every engine is written as a function
//! from the state it keeps and the register values it is shown to its next state
//! and the list of peripheral operations that its caller must perform, in order.

pub mod bytes;
pub mod netif;
pub mod scsi;
pub mod usb_host;
