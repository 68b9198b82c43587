//! The SCSI command layer: fixed-format commands sent over a transport, and
//! their fixed-format replies.

pub mod big_endian;
pub mod scsi_device;
pub mod scsi_transport;
