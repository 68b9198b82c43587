//! The peripheral as the engines see it: register values that they are shown,
//! and the operations that they ask their caller to perform.
//!
//! A register that the driver reads is handed to it as a plain value. A
//! register that it writes becomes a [`HwOp`], appended to a list which the
//! caller replays on the peripheral in order.

use vstd::prelude::*;
use crate::usb_host::host_controller::UsbError;
use crate::usb_host::wire::SetupPacket;

verus! {

/// Offset of the control pipe's first buffer half in the peripheral's memory.
pub const CONTROL_BUFFER: u16 = 0x180;

/// Offset of pipe zero's slot in the table of interrupt-pipe buffers; pipe `n`
/// has its buffer `64 * n` bytes further on.
pub const PIPE_BUFFERS: u16 = 0x200;

/// Core clock cycles that the peripheral needs between a write of a buffer's
/// fields and the write that hands the buffer over.
pub const ARM_DELAY: u32 = 12;

/// One of the two halves of a pipe's buffer-control word.
#[derive(Clone, Copy, Debug, PartialEq, Eq, Structural)]
pub struct BufferHalf {
    /// The buffer holds data: to send, or just received.
    pub full: bool,
    /// The buffer belongs to the peripheral until it clears this bit.
    pub available: bool,
    /// Data toggle of the packet in this buffer.
    pub pid: bool,
    /// This buffer ends the transfer.
    pub last: bool,
    /// Bytes in the buffer, or bytes of room in it.
    pub length: u16,
}

/// A pipe's buffer-control word: two halves, used in turn.
#[derive(Clone, Copy, Debug, PartialEq, Eq, Structural)]
pub struct BufferControl {
    pub half_0: BufferHalf,
    pub half_1: BufferHalf,
}

impl BufferHalf {
    /// The half as it reads after a reset: nothing set.
    pub open spec fn spec_zero() -> BufferHalf {
        BufferHalf { full: false, available: false, pid: false, last: false, length: 0 }
    }

    /// The half as it reads after a reset: nothing set.
    #[verifier::when_used_as_spec(spec_zero)]
    pub fn zero() -> (h: BufferHalf)
        ensures
            h == Self::spec_zero(),
    {
        BufferHalf { full: false, available: false, pid: false, last: false, length: 0 }
    }
}

impl BufferControl {
    /// The word as it reads after a reset.
    pub open spec fn spec_zero() -> BufferControl {
        BufferControl { half_0: BufferHalf::spec_zero(), half_1: BufferHalf::spec_zero() }
    }

    /// The word as it reads after a reset.
    #[verifier::when_used_as_spec(spec_zero)]
    pub fn zero() -> (b: BufferControl)
        ensures
            b == Self::spec_zero(),
    {
        BufferControl { half_0: BufferHalf::zero(), half_1: BufferHalf::zero() }
    }

    /// Half `n`; every `n` but zero names the second half.
    pub open spec fn spec_half(self, n: u8) -> BufferHalf {
        if n == 0 {
            self.half_0
        } else {
            self.half_1
        }
    }

    /// Half `n`; every `n` but zero names the second half.
    #[verifier::when_used_as_spec(spec_half)]
    pub fn half(self, n: u8) -> (h: BufferHalf)
        ensures
            h == self.spec_half(n),
    {
        if n == 0 {
            self.half_0
        } else {
            self.half_1
        }
    }

    /// The word with half `n` replaced by `h`.
    pub open spec fn spec_with_half(self, n: u8, h: BufferHalf) -> BufferControl {
        if n == 0 {
            BufferControl { half_0: h, half_1: self.half_1 }
        } else {
            BufferControl { half_0: self.half_0, half_1: h }
        }
    }

    /// The word with half `n` replaced by `h`.
    #[verifier::when_used_as_spec(spec_with_half)]
    pub fn with_half(self, n: u8, h: BufferHalf) -> (b: BufferControl)
        ensures
            b == self.spec_with_half(n, h),
    {
        if n == 0 {
            BufferControl { half_0: h, half_1: self.half_1 }
        } else {
            BufferControl { half_0: self.half_0, half_1: h }
        }
    }
}

/// What the serial interface engine reports of the transaction in progress.
#[derive(Clone, Copy, Debug, PartialEq, Eq, Structural)]
pub struct SieStatus {
    /// Line state of the root port: 0 nothing attached, 1 low speed, else full speed.
    pub speed: u8,
    pub trans_complete: bool,
    pub data_seq_error: bool,
    pub stall_rec: bool,
    /// The device answered NAK. The peripheral retries by itself; no engine
    /// treats this as a failure.
    pub nak_rec: bool,
    pub rx_overflow: bool,
    pub rx_timeout: bool,
    pub bit_stuff_error: bool,
    pub crc_error: bool,
}

impl SieStatus {
    /// The error that a status word stands for: the first flag set, in the
    /// order data sequence, stall, overflow, timeout, bit stuffing, CRC.
    pub open spec fn spec_error(self) -> Option<UsbError> {
        if self.data_seq_error {
            Some(UsbError::DataSeqError)
        } else if self.stall_rec {
            Some(UsbError::Stall)
        } else if self.rx_overflow {
            Some(UsbError::Overflow)
        } else if self.rx_timeout {
            Some(UsbError::Timeout)
        } else if self.bit_stuff_error {
            Some(UsbError::BitStuffError)
        } else if self.crc_error {
            Some(UsbError::CrcError)
        } else {
            None
        }
    }

    /// The error that the flags stand for, if any of them is set.
    #[verifier::when_used_as_spec(spec_error)]
    pub fn error(self) -> (e: Option<UsbError>)
        ensures
            e == self.spec_error(),
            e is None <==> !(self.data_seq_error || self.stall_rec || self.rx_overflow
                || self.rx_timeout || self.bit_stuff_error || self.crc_error),
    {
        if self.data_seq_error {
            return Some(UsbError::DataSeqError);
        }
        if self.stall_rec {
            return Some(UsbError::Stall);
        }
        if self.rx_overflow {
            return Some(UsbError::Overflow);
        }
        if self.rx_timeout {
            return Some(UsbError::Timeout);
        }
        if self.bit_stuff_error {
            return Some(UsbError::BitStuffError);
        }
        if self.crc_error {
            return Some(UsbError::CrcError);
        }
        None
    }
}

/// A set of interrupt sources, as enabled or disabled together.
#[derive(Clone, Copy, Debug, PartialEq, Eq, Structural)]
pub struct InterruptSet {
    pub host_conn_dis: bool,
    pub trans_complete: bool,
    pub buff_status: bool,
    pub error_data_seq: bool,
    pub stall: bool,
    pub error_rx_timeout: bool,
    pub error_rx_overflow: bool,
    pub error_bit_stuff: bool,
    pub error_crc: bool,
}

impl InterruptSet {
    /// The empty set.
    pub open spec fn spec_none() -> InterruptSet {
        InterruptSet {
            host_conn_dis: false,
            trans_complete: false,
            buff_status: false,
            error_data_seq: false,
            stall: false,
            error_rx_timeout: false,
            error_rx_overflow: false,
            error_bit_stuff: false,
            error_crc: false,
        }
    }

    /// The empty set.
    #[verifier::when_used_as_spec(spec_none)]
    pub fn none() -> (s: InterruptSet)
        ensures
            s == Self::spec_none(),
    {
        InterruptSet {
            host_conn_dis: false,
            trans_complete: false,
            buff_status: false,
            error_data_seq: false,
            stall: false,
            error_rx_timeout: false,
            error_rx_overflow: false,
            error_bit_stuff: false,
            error_crc: false,
        }
    }

    /// Transaction complete and every error source of a transfer.
    pub open spec fn spec_transfer() -> InterruptSet {
        InterruptSet {
            host_conn_dis: false,
            trans_complete: true,
            buff_status: false,
            error_data_seq: true,
            stall: true,
            error_rx_timeout: true,
            error_rx_overflow: true,
            error_bit_stuff: true,
            error_crc: true,
        }
    }

    /// Transaction complete and every error source of a transfer.
    #[verifier::when_used_as_spec(spec_transfer)]
    pub fn transfer() -> (s: InterruptSet)
        ensures
            s == Self::spec_transfer(),
    {
        InterruptSet {
            host_conn_dis: false,
            trans_complete: true,
            buff_status: false,
            error_data_seq: true,
            stall: true,
            error_rx_timeout: true,
            error_rx_overflow: true,
            error_bit_stuff: true,
            error_crc: true,
        }
    }
}

/// One operation on the peripheral. A list of them is performed front to back.
#[derive(Clone, Copy, Debug, PartialEq, Eq, Structural)]
pub enum HwOp {
    /// Write the control pipe's endpoint-control word.
    WriteEpxControl {
        buffer_address: u16,
        double_buffered: bool,
        interrupt_per_buff: bool,
        enable: bool,
    },
    /// Write the endpoint-control word of interrupt pipe `pipe`: enabled, one
    /// interrupt per buffer, endpoint type interrupt.
    WriteEpControl { pipe: u8, buffer_address: u16, host_poll_interval: u16 },
    /// Write the whole buffer-control word of `pipe`.
    WriteBufferControl { pipe: u8, value: BufferControl },
    /// Read-modify-write of one half of `pipe`'s buffer-control word: set
    /// `pid`, `last` and `length`; set `full` as given, or leave it as it is.
    /// `available` is not touched.
    ModifyBuffer { pipe: u8, half: u8, full: Option<bool>, pid: bool, last: bool, length: u16 },
    /// Read-modify-write that sets `available` in one half of `pipe`'s
    /// buffer-control word, handing the buffer to the peripheral.
    ArmBuffer { pipe: u8, half: u8 },
    /// Write the two setup-packet registers.
    WriteSetupPacket { setup: SetupPacket },
    /// Copy `len` bytes of the caller's buffer, from `offset` on, into half
    /// `half` of the control pipe's buffer.
    CopyOut { half: u8, offset: usize, len: usize },
    /// Copy `len` bytes from half `half` of the control pipe's buffer into
    /// the caller's buffer, from `offset` on.
    CopyIn { half: u8, offset: usize, len: usize },
    /// Write the SIE status register (its flags clear when written with one).
    WriteSieStatus { bits: u32 },
    /// Write the buffer status register (its flags clear when written with one).
    WriteBuffStatus { bits: u32 },
    /// Write device address and endpoint of the control pipe.
    WriteAddrEndp { address: u8, endpoint: u8 },
    /// Write device address and endpoint of interrupt pipe `pipe`, direction in.
    WriteHostAddrEndp { pipe: u8, address: u8, endpoint: u8 },
    /// SIE control: clear receive and send, set send-setup.
    SieCtrlSendSetup,
    /// SIE control: set receive and send as given, clear send-setup.
    SieCtrlDirection { receive_data: bool, send_data: bool },
    /// SIE control: set start-transaction.
    SieCtrlStartTrans,
    /// Set the enable bit of each source in the set; leave the others.
    EnableInterrupts { sources: InterruptSet },
    /// Clear the enable bit of each source in the set; leave the others.
    DisableInterrupts { sources: InterruptSet },
    /// Or `mask` into the register that selects the interrupt pipes to poll.
    PollEndpoints { mask: u32 },
    /// Write the register of per-endpoint STALL/NAK flags (write one to clear).
    WriteStallNak { bits: u32 },
    /// Spin for this many core clock cycles.
    Delay { cycles: u32 },
}

/// The three operations that hand one buffer half to the peripheral: its
/// fields, the settling delay, then the available bit.
pub open spec fn arm_ops(
    pipe: u8,
    half: u8,
    full: Option<bool>,
    pid: bool,
    last: bool,
    length: u16,
) -> Seq<HwOp> {
    seq![
        HwOp::ModifyBuffer { pipe, half, full, pid, last, length },
        HwOp::Delay { cycles: ARM_DELAY },
        HwOp::ArmBuffer { pipe, half },
    ]
}

/// Appends [`arm_ops`] to `ops`.
pub fn push_arm_ops(
    ops: &mut Vec<HwOp>,
    pipe: u8,
    half: u8,
    full: Option<bool>,
    pid: bool,
    last: bool,
    length: u16,
)
    ensures
        final(ops)@ == old(ops)@ + arm_ops(pipe, half, full, pid, last, length),
{
    ops.push(HwOp::ModifyBuffer { pipe, half, full, pid, last, length });
    ops.push(HwOp::Delay { cycles: ARM_DELAY });
    ops.push(HwOp::ArmBuffer { pipe, half });
}

} // verus!
