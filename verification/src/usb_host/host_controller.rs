//! The value types that a host controller hands to the layers above it.

use vstd::prelude::*;

verus! {

/// Everything that can go wrong in a transfer.
#[derive(Clone, Copy, Debug, PartialEq, Eq, Structural)]
pub enum UsbError {
    /// The device answered with a STALL handshake.
    Stall,
    /// A data packet arrived with the wrong data toggle.
    DataSeqError,
    /// The device sent more than the buffer armed for it could take.
    Overflow,
    /// The device did not answer in time.
    Timeout,
    /// Bit-stuffing violation on the wire.
    BitStuffError,
    /// Checksum mismatch on the wire.
    CrcError,
    /// The caller's buffer is shorter than the transfer asks for.
    BufferTooSmall,
    /// Non-suspending allocation found every pipe taken.
    AllPipesInUse,
    /// A reply was shorter than its fixed structure.
    ProtocolError,
}

/// Signalling speed of an attached device.
#[derive(Clone, Copy, Debug, PartialEq, Eq, Structural)]
pub enum UsbSpeed {
    Low1_5,
    Full12,
}

/// Last-observed state of the root port.
#[derive(Clone, Copy, Debug, PartialEq, Eq, Structural)]
pub enum DeviceStatus {
    Absent,
    Present(UsbSpeed),
}

/// Data stage of a control transfer: its direction and the length of the
/// caller's buffer. The bytes themselves never pass through the engine; it
/// only says which range of the buffer each packet covers.
#[derive(Clone, Copy, Debug, PartialEq, Eq, Structural)]
pub enum DataPhase {
    /// Device to host, into a buffer of this many bytes.
    In(usize),
    /// Host to device, from a buffer of this many bytes.
    Out(usize),
    /// No data stage.
    NoData,
}

/// One packet read from an interrupt endpoint.
#[derive(Clone, Copy, Debug)]
pub struct InterruptPacket {
    /// Device address the packet came from (zero for a single-endpoint pipe).
    pub address: u8,
    /// Endpoint number the packet came from (zero for a single-endpoint pipe).
    pub endpoint: u8,
    /// Number of valid bytes in `data`.
    pub size: u8,
    /// The payload; bytes from `size` on are zero.
    pub data: [u8; 64],
}

impl InterruptPacket {
    /// The payload as a sequence: the first `size` bytes of `data`.
    pub open spec fn payload(&self) -> Seq<u8> {
        self.data@.subrange(0, self.size as int)
    }

    /// `size` fits the buffer and the unused tail is zero.
    pub open spec fn wf(&self) -> bool {
        &&& self.size <= 64
        &&& forall|i: int| self.size <= i < 64 ==> self.data@[i] == 0
    }
}

impl Default for InterruptPacket {
    fn default() -> (p: Self)
        ensures
            p.address == 0,
            p.endpoint == 0,
            p.size == 0,
            p.wf(),
    {
        InterruptPacket { address: 0, endpoint: 0, size: 0, data: [0u8; 64] }
    }
}

} // verus!
