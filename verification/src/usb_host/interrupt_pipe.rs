//! The interrupt pipe: one endpoint polled through one pipe slot.

use vstd::prelude::*;
use crate::usb_host::host_controller::InterruptPacket;
use crate::usb_host::registers::{
    BufferControl,
    BufferHalf,
    HwOp,
    InterruptSet,
    ARM_DELAY,
    PIPE_BUFFERS,
};

verus! {

/// Interrupt pipes of the peripheral; they are numbered from one, pipe zero
/// being the control pipe.
pub const INTERRUPT_PIPES: u8 = 15;

/// Longest polling interval, in milliseconds, that the peripheral is asked for.
pub const MAX_POLL_INTERVAL: u16 = 9;

/// The buffer-control word that offers the first half of a pipe's buffer for
/// one inbound packet of at most `max_packet_size` bytes with data toggle
/// `pid`, not yet handed over.
pub open spec fn receive_buffer(pid: bool, max_packet_size: u16) -> BufferControl {
    BufferControl {
        half_0: BufferHalf { full: false, available: false, pid, last: true, length: max_packet_size },
        half_1: BufferHalf::spec_zero(),
    }
}

/// The operations that offer pipe `pipe`'s buffer for the next packet.
pub open spec fn rearm_ops(pipe: u8, pid: bool, max_packet_size: u16) -> Seq<HwOp> {
    seq![
        HwOp::WriteBufferControl { pipe, value: receive_buffer(pid, max_packet_size) },
        HwOp::Delay { cycles: ARM_DELAY },
        HwOp::ArmBuffer { pipe, half: 0 },
    ]
}

/// The polling interval programmed for an endpoint that asks for
/// `interval_ms`.
pub open spec fn poll_interval(interval_ms: u8) -> u16 {
    if interval_ms as u16 <= MAX_POLL_INTERVAL {
        interval_ms as u16
    } else {
        MAX_POLL_INTERVAL
    }
}

/// The operations that bind pipe `pipe` to an inbound interrupt endpoint and
/// offer its buffer for the first packet, which carries DATA0.
pub open spec fn open_ops(
    pipe: u8,
    address: u8,
    endpoint: u8,
    max_packet_size: u16,
    interval_ms: u8,
) -> Seq<HwOp> {
    seq![
        HwOp::WriteHostAddrEndp { pipe, address, endpoint },
        HwOp::WriteEpControl {
            pipe,
            buffer_address: (PIPE_BUFFERS + 64 * pipe) as u16,
            host_poll_interval: poll_interval(interval_ms),
        },
    ] + rearm_ops(pipe, false, max_packet_size)
}

/// The operations of a poll that finds nothing, for one pipe: buffer-status
/// interrupts are enabled, the pipe is selected for polling, and its
/// STALL/NAK flags are cleared.
pub open spec fn idle_ops(pipe: u8) -> Seq<HwOp> {
    seq![
        HwOp::EnableInterrupts {
            sources: InterruptSet { buff_status: true, ..InterruptSet::spec_none() },
        },
        HwOp::PollEndpoints { mask: 1u32 << (pipe as u32) },
        HwOp::WriteStallNak { bits: 3u32 << ((pipe * 2) as u32) },
    ]
}

/// Number of bytes taken from a buffer whose control word reports `length`:
/// never more than a packet holds.
pub open spec fn packet_size_of(length: u16) -> u8 {
    if length <= 64 {
        length as u8
    } else {
        64
    }
}

/// The payload array of a packet of `size` bytes read from `buffer`: its
/// first `size` bytes, then zeroes.
pub open spec fn packet_data(buffer: Seq<u8>, size: u8) -> Seq<u8> {
    Seq::new(
        64,
        |i: int|
            if i < size {
                buffer[i]
            } else {
                0u8
            },
    )
}

/// The packet read from `buffer`, whose control word is `reg`.
pub open spec fn packet_read(p: InterruptPacket, address: u8, endpoint: u8, reg: BufferControl, buffer: Seq<u8>) -> bool {
    &&& p.address == address
    &&& p.endpoint == endpoint
    &&& p.size == packet_size_of(reg.half_0.length)
    &&& p.data@ == packet_data(buffer, p.size)
    &&& p.wf()
}

pub(crate) fn push_rearm_ops(ops: &mut Vec<HwOp>, pipe: u8, pid: bool, max_packet_size: u16)
    ensures
        final(ops)@ == old(ops)@ + rearm_ops(pipe, pid, max_packet_size),
{
    let value = BufferControl {
        half_0: BufferHalf { full: false, available: false, pid, last: true, length: max_packet_size },
        half_1: BufferHalf::zero(),
    };
    ops.push(HwOp::WriteBufferControl { pipe, value });
    ops.push(HwOp::Delay { cycles: ARM_DELAY });
    ops.push(HwOp::ArmBuffer { pipe, half: 0 });
}

pub(crate) fn push_open_ops(
    ops: &mut Vec<HwOp>,
    pipe: u8,
    address: u8,
    endpoint: u8,
    max_packet_size: u16,
    interval_ms: u8,
)
    requires
        pipe <= INTERRUPT_PIPES,
    ensures
        final(ops)@ == old(ops)@ + open_ops(pipe, address, endpoint, max_packet_size, interval_ms),
{
    ops.push(HwOp::WriteHostAddrEndp { pipe, address, endpoint });
    let interval = if (interval_ms as u16) <= MAX_POLL_INTERVAL {
        interval_ms as u16
    } else {
        MAX_POLL_INTERVAL
    };
    ops.push(
        HwOp::WriteEpControl {
            pipe,
            buffer_address: PIPE_BUFFERS + 64 * (pipe as u16),
            host_poll_interval: interval,
        },
    );
    push_rearm_ops(ops, pipe, false, max_packet_size);
}

pub(crate) fn read_packet(address: u8, endpoint: u8, reg: BufferControl, buffer: &[u8; 64]) -> (p:
    InterruptPacket)
    ensures
        packet_read(p, address, endpoint, reg, buffer@),
{
    let length = reg.half_0.length;
    let size: u8 = if length <= 64 {
        length as u8
    } else {
        64
    };
    let mut data = [0u8; 64];
    let mut i: usize = 0;
    while i < size as usize
        invariant
            i <= size <= 64,
            forall|j: int| 0 <= j < i ==> data@[j] == buffer@[j],
            forall|j: int| i <= j < 64 ==> data@[j] == 0,
        decreases size - i,
    {
        data[i] = buffer[i];
        i += 1;
    }
    assert(data@ =~= packet_data(buffer@, size));
    InterruptPacket { address, endpoint, size, data }
}

/// What an interrupt pipe is: its slot, the packet size it asks for, and the
/// data toggle of the packet it waits for.
pub ghost struct InterruptPipeView {
    pub pipe: u8,
    pub max_packet_size: u16,
    pub data_toggle: bool,
}

/// One interrupt endpoint, polled through one pipe slot.
pub struct Rp2040InterruptPipe {
    pipe: u8,
    max_packet_size: u16,
    data_toggle: bool,
}

impl View for Rp2040InterruptPipe {
    type V = InterruptPipeView;

    closed spec fn view(&self) -> InterruptPipeView {
        InterruptPipeView {
            pipe: self.pipe,
            max_packet_size: self.max_packet_size,
            data_toggle: self.data_toggle,
        }
    }
}

impl Rp2040InterruptPipe {
    #[verifier::type_invariant]
    spec fn inv(self) -> bool {
        1 <= self.pipe <= INTERRUPT_PIPES
    }

    /// Binds pipe `pipe` to the inbound interrupt endpoint `endpoint` of the
    /// device at `address` and offers its buffer for the first packet.
    pub fn open(
        pipe: u8,
        address: u8,
        endpoint: u8,
        max_packet_size: u16,
        interval_ms: u8,
        ops: &mut Vec<HwOp>,
    ) -> (p: Self)
        requires
            1 <= pipe <= INTERRUPT_PIPES,
        ensures
            p@ == (InterruptPipeView { pipe, max_packet_size, data_toggle: false }),
            final(ops)@ == old(ops)@ + open_ops(pipe, address, endpoint, max_packet_size, interval_ms),
    {
        push_open_ops(ops, pipe, address, endpoint, max_packet_size, interval_ms);
        Self { pipe, max_packet_size, data_toggle: false }
    }

    /// The pipe slot, between 1 and 15.
    pub fn pipe(&self) -> (n: u8)
        ensures
            n == self@.pipe,
            1 <= n <= INTERRUPT_PIPES,
    {
        proof {
            use_type_invariant(self);
        }
        self.pipe
    }

    /// Looks for a packet, without waiting: `reg` is the pipe's
    /// buffer-control word and `buffer` the pipe's buffer, both as read now.
    /// If the buffer is full, returns the packet in it, flips the data toggle
    /// and offers the buffer again. If not, returns `None` and enables the
    /// interrupt that tells the caller when to look again.
    pub fn poll(&mut self, reg: BufferControl, buffer: &[u8; 64], ops: &mut Vec<HwOp>) -> (r:
        Option<InterruptPacket>)
        ensures
            final(self)@.pipe == old(self)@.pipe,
            final(self)@.max_packet_size == old(self)@.max_packet_size,
            reg.half_0.full ==> {
                &&& r matches Some(p)
                &&& packet_read(p, 0, 0, reg, buffer@)
                &&& final(self)@.data_toggle == !old(self)@.data_toggle
                &&& final(ops)@ == old(ops)@ + rearm_ops(
                    old(self)@.pipe,
                    !old(self)@.data_toggle,
                    old(self)@.max_packet_size,
                )
            },
            !reg.half_0.full ==> {
                &&& r is None
                &&& final(self)@ == old(self)@
                &&& final(ops)@ == old(ops)@ + idle_ops(old(self)@.pipe)
            },
    {
        proof {
            use_type_invariant(&*self);
        }
        if reg.half_0.full {
            let packet = read_packet(0, 0, reg, buffer);
            self.data_toggle = !self.data_toggle;
            push_rearm_ops(ops, self.pipe, self.data_toggle, self.max_packet_size);
            Some(packet)
        } else {
            let mut sources = InterruptSet::none();
            sources.buff_status = true;
            ops.push(HwOp::EnableInterrupts { sources });
            ops.push(HwOp::PollEndpoints { mask: 1u32 << (self.pipe as u32) });
            ops.push(HwOp::WriteStallNak { bits: 3u32 << ((self.pipe * 2) as u32) });
            None
        }
    }
}

/// The pipe after `n` packets have been read from it.
pub open spec fn received(v: InterruptPipeView, n: nat) -> InterruptPipeView
    decreases n,
{
    if n == 0 {
        v
    } else {
        InterruptPipeView { data_toggle: !received(v, (n - 1) as nat).data_toggle, ..v }
    }
}

/// On one interrupt pipe the data toggle alternates from each packet read to
/// the next: the buffer is first offered for DATA0, and after `n` packets it
/// is offered for DATA1 if `n` is odd and for DATA0 if `n` is even.
pub proof fn lemma_interrupt_toggle_alternates(v: InterruptPipeView, n: nat)
    requires
        !v.data_toggle,
    ensures
        received(v, n).data_toggle == (n % 2 == 1),
        received(v, n + 1).data_toggle == !received(v, n).data_toggle,
    decreases n,
{
    if n > 0 {
        lemma_interrupt_toggle_alternates(v, (n - 1) as nat);
    }
    reveal_with_fuel(received, 2);
}

} // verus!
