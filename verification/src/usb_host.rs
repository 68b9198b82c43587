//! The USB host controller: pipe pool, packetisers, control and interrupt
//! transfer engines.

pub mod host_controller;
pub mod registers;
pub mod packetiser;
pub mod pool;
pub mod control;
pub mod irq;
pub mod device_detect;
pub mod interrupt_pipe;
pub mod multi_interrupt_pipe;
pub mod rp2040;
pub mod wire;
