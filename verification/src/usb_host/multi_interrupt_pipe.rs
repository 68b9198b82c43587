//! The multiplexed interrupt pipe: many endpoints polled through a set of
//! pipe slots that it takes from the pool one by one.

use vstd::prelude::*;
use crate::usb_host::host_controller::{InterruptPacket, UsbError};
use crate::usb_host::interrupt_pipe::{
    open_ops,
    packet_read,
    push_open_ops,
    push_rearm_ops,
    read_packet,
    rearm_ops,
    INTERRUPT_PIPES,
};
use crate::usb_host::pool::{bits_to_set, is_grant, MultiPooled, Pool};
use crate::usb_host::registers::{BufferControl, HwOp, InterruptSet};

verus! {

/// What the multiplexed pipe knows of the endpoint behind one of its slots.
#[derive(Clone, Copy, Debug, PartialEq, Eq, Structural)]
pub struct PipeInfo {
    pub address: u8,
    pub endpoint: u8,
    pub max_packet_size: u8,
    /// Data toggle of the packet that the slot waits for.
    pub data_toggle: bool,
}

/// What a multiplexed pipe is: the pool slots it holds, as a bitmap, and for
/// each hardware pipe what is known of its endpoint. Pool slot `n` is
/// hardware pipe `n + 1`.
pub ghost struct MultiPipeView {
    pub bits: u32,
    pub info: Seq<Option<PipeInfo>>,
}

impl MultiPipeView {
    /// The pool slots held.
    pub open spec fn slots(self) -> Set<int> {
        bits_to_set(self.bits)
    }

    /// What holds of every multiplexed pipe: each slot held is one of the
    /// peripheral's interrupt pipes, and its endpoint is known.
    pub open spec fn wf(self) -> bool {
        &&& self.info.len() == 16
        &&& forall|slot: int| #[trigger]
            self.slots().contains(slot) ==> 0 <= slot < INTERRUPT_PIPES && self.info[slot + 1] is Some
    }

    /// Whether slot `slot` is held and its buffer is full.
    pub open spec fn ready(self, controls: Seq<BufferControl>, slot: int) -> bool {
        self.slots().contains(slot) && controls[slot + 1].half_0.full
    }

    /// The lowest slot below `n` that is ready, if there is one.
    pub open spec fn first_ready(self, controls: Seq<BufferControl>, n: nat) -> Option<int>
        decreases n,
    {
        if n == 0 {
            None
        } else {
            match self.first_ready(controls, (n - 1) as nat) {
                Some(slot) => Some(slot),
                None => if self.ready(controls, n - 1) {
                    Some(n - 1)
                } else {
                    None
                },
            }
        }
    }

    /// The pipe after a packet has been read from `slot`: that slot's data
    /// toggle is flipped.
    pub open spec fn received(self, slot: int) -> MultiPipeView {
        let before = self.info[slot + 1]->0;
        MultiPipeView {
            bits: self.bits,
            info: self.info.update(
                slot + 1,
                Some(PipeInfo { data_toggle: !before.data_toggle, ..before }),
            ),
        }
    }

    /// The pipe after `slot` has been added for an endpoint.
    pub open spec fn added(self, slot: int, info: PipeInfo) -> MultiPipeView {
        MultiPipeView {
            bits: self.bits | (1u32 << (slot as u32)),
            info: self.info.update(slot + 1, Some(info)),
        }
    }

    /// Whether slot `slot` is held for an endpoint of the device at `address`.
    pub open spec fn belongs(self, slot: int, address: u8) -> bool {
        &&& self.slots().contains(slot)
        &&& self.info[slot + 1] matches Some(info)
        &&& info.address == address
    }

    /// The operations that withdraw the buffers of the slots below `n` that
    /// are held for the device at `address`, in slot order: the
    /// buffer-control word of each is reset, which takes its buffer back
    /// from the peripheral.
    pub open spec fn remove_ops(self, address: u8, n: nat) -> Seq<HwOp>
        decreases n,
    {
        if n == 0 {
            Seq::empty()
        } else if self.belongs(n - 1, address) {
            self.remove_ops(address, (n - 1) as nat).push(
                HwOp::WriteBufferControl { pipe: n as u8, value: BufferControl::spec_zero() },
            )
        } else {
            self.remove_ops(address, (n - 1) as nat)
        }
    }

    /// The STALL/NAK flags cleared by a poll that finds nothing: two flags
    /// for each slot held, among the slots below `n`.
    pub open spec fn stall_nak_mask(self, n: nat) -> u32
        decreases n,
    {
        if n == 0 {
            0
        } else if self.slots().contains(n - 1) {
            self.stall_nak_mask((n - 1) as nat) | (3u32 << ((2 * (n - 1)) as u32))
        } else {
            self.stall_nak_mask((n - 1) as nat)
        }
    }

    /// The operations of a poll that finds nothing: buffer-status interrupts
    /// are enabled, every pipe held is selected for polling, and the
    /// STALL/NAK flags are cleared.
    pub open spec fn idle_ops(self) -> Seq<HwOp> {
        seq![
            HwOp::EnableInterrupts {
                sources: InterruptSet { buff_status: true, ..InterruptSet::spec_none() },
            },
            HwOp::PollEndpoints { mask: self.bits << 1 },
            HwOp::WriteStallNak { bits: self.stall_nak_mask(INTERRUPT_PIPES as nat) },
        ]
    }
}

/// A slot that is the first ready one below `n` is the first ready one below
/// any greater bound.
proof fn lemma_first_ready_found(v: MultiPipeView, controls: Seq<BufferControl>, slot: int, n: nat)
    requires
        0 <= slot < n,
        v.first_ready(controls, slot as nat) is None,
        v.ready(controls, slot),
    ensures
        v.first_ready(controls, n) == Some(slot),
    decreases n,
{
    if n > slot + 1 {
        lemma_first_ready_found(v, controls, slot, (n - 1) as nat);
    }
}

/// The first ready slot is ready, and no slot below it is.
pub proof fn lemma_first_ready(v: MultiPipeView, controls: Seq<BufferControl>, n: nat)
    ensures
        v.first_ready(controls, n) matches Some(slot) ==> 0 <= slot < n && v.ready(controls, slot)
            && forall|lower: int| 0 <= lower < slot ==> !v.ready(controls, lower),
        v.first_ready(controls, n) is None ==> forall|slot: int|
            0 <= slot < n ==> !v.ready(controls, slot),
    decreases n,
{
    if n > 0 {
        lemma_first_ready(v, controls, (n - 1) as nat);
    }
}

/// Many interrupt endpoints, polled through the pool slots that the pipe has
/// taken for them.
pub struct Rp2040MultiInterruptPipe {
    pipes: MultiPooled,
    pipe_info: [Option<PipeInfo>; 16],
}

impl View for Rp2040MultiInterruptPipe {
    type V = MultiPipeView;

    closed spec fn view(&self) -> MultiPipeView {
        MultiPipeView { bits: self.pipes.spec_bits(), info: self.pipe_info@ }
    }
}

impl Rp2040MultiInterruptPipe {
    #[verifier::type_invariant]
    spec fn inv(self) -> bool {
        self@.wf()
    }

    /// A multiplexed pipe that holds no slot yet.
    pub fn new() -> (m: Self)
        ensures
            m@.bits == 0,
            m@.slots() == Set::<int>::empty(),
            m@.info == Seq::new(16, |i: int| None::<PipeInfo>),
            m@.wf(),
    {
        let m = Self { pipes: MultiPooled::new(), pipe_info: [None;16] };
        assert(m@.info =~= Seq::new(16, |i: int| None::<PipeInfo>));
        m
    }

    /// The hardware pipes held, as a bitmap: bit `p` for pipe `p`. These are
    /// the pipes whose interrupt a task that polls this pipe waits for.
    pub fn pipes(&self) -> (mask: u32)
        ensures
            mask == self@.bits << 1,
    {
        self.pipes.bits() << 1
    }

    /// Adds the inbound interrupt endpoint `endpoint` of the device at
    /// `address`: takes the lowest free slot of `pool`, binds its pipe to the
    /// endpoint and offers its buffer for the first packet. If no slot that
    /// stands for a pipe is free, fails at once with `AllPipesInUse` and
    /// changes nothing.
    pub fn try_add(
        &mut self,
        pool: &mut Pool,
        address: u8,
        endpoint: u8,
        max_packet_size: u8,
        interval_ms: u8,
        ops: &mut Vec<HwOp>,
    ) -> (r: Result<(), UsbError>)
        ensures
            old(self)@.wf(),
            final(self)@.wf(),
            final(pool).size() == old(pool).size(),
            final(pool).wf(),
            r is Ok <==> exists|n: int|
                is_grant(old(pool).size(), old(pool)@, n) && n < INTERRUPT_PIPES,
            r is Err ==> {
                &&& r == Err::<(), UsbError>(UsbError::AllPipesInUse)
                &&& final(self)@ == old(self)@
                &&& final(pool)@ == old(pool)@
                &&& final(ops)@ == old(ops)@
            },
            r is Ok ==> forall|n: int| #[trigger]
                is_grant(old(pool).size(), old(pool)@, n) ==> {
                    &&& final(pool)@ == old(pool)@.insert(n)
                    &&& final(self)@ == old(self)@.added(
                        n,
                        PipeInfo { address, endpoint, max_packet_size, data_toggle: false },
                    )
                    &&& final(self)@.slots() == old(self)@.slots().insert(n)
                    &&& final(ops)@ == old(ops)@ + open_ops(
                        (n + 1) as u8,
                        address,
                        endpoint,
                        max_packet_size as u16,
                        interval_ms,
                    )
                },
    {
        proof {
            use_type_invariant(&*self);
        }
        let mut pipes = MultiPooled::new();
        core::mem::swap(&mut self.pipes, &mut pipes);
        match pipes.try_alloc(pool, INTERRUPT_PIPES) {
            Some(n) => {
                let pipe = n + 1;
                let mut pipe_info = self.pipe_info;
                pipe_info[pipe as usize] = Some(
                    PipeInfo { address, endpoint, max_packet_size, data_toggle: false },
                );
                push_open_ops(ops, pipe, address, endpoint, max_packet_size as u16, interval_ms);
                proof {
                    assert forall|m: int| is_grant(old(pool).size(), old(pool)@, m) implies m
                        == n by {
                        if m < n {
                            assert(old(pool)@.contains(m));
                        } else if n < m {
                            assert(old(pool)@.contains(n as int));
                        }
                    }
                    assert(pipe_info@ =~= old(self)@.info.update(
                        n + 1,
                        Some(PipeInfo { address, endpoint, max_packet_size, data_toggle: false }),
                    ));
                    let v = MultiPipeView { bits: pipes.spec_bits(), info: pipe_info@ };
                    assert(v.slots() == old(self)@.slots().insert(n as int));
                    assert forall|slot: int| #[trigger] v.slots().contains(slot) implies 0 <= slot
                        < INTERRUPT_PIPES && v.info[slot + 1] is Some by {
                        if slot != n {
                            assert(old(self)@.slots().contains(slot));
                        }
                    }
                }
                *self = Self { pipes, pipe_info };
                Ok(())
            },
            None => {
                self.pipes = pipes;
                Err(UsbError::AllPipesInUse)
            },
        }
    }

    /// Looks for a packet on the endpoints added, without waiting.
    /// `controls` holds the buffer-control word of every hardware pipe and
    /// `buffers` the buffer of every hardware pipe, both indexed by pipe and
    /// as read now. The slots held are looked at in order; for the first one
    /// whose buffer is full, returns the packet in it, tagged with its
    /// endpoint, flips that slot's data toggle and offers its buffer again.
    /// If no buffer is full, returns `None` and enables the interrupt that
    /// tells the caller when to look again.
    pub fn poll(
        &mut self,
        controls: &[BufferControl; 16],
        buffers: &[[u8; 64]; 16],
        ops: &mut Vec<HwOp>,
    ) -> (r: Option<InterruptPacket>)
        ensures
            old(self)@.wf(),
            final(self)@.wf(),
            match old(self)@.first_ready(controls@, INTERRUPT_PIPES as nat) {
                Some(slot) => {
                    let info = old(self)@.info[slot + 1]->0;
                    &&& r matches Some(p)
                    &&& packet_read(
                        p,
                        info.address,
                        info.endpoint,
                        controls@[slot + 1],
                        buffers@[slot + 1]@,
                    )
                    &&& final(self)@ == old(self)@.received(slot)
                    &&& final(ops)@ == old(ops)@ + rearm_ops(
                        (slot + 1) as u8,
                        !info.data_toggle,
                        info.max_packet_size as u16,
                    )
                },
                None => {
                    &&& r is None
                    &&& final(self)@ == old(self)@
                    &&& final(ops)@ == old(ops)@ + old(self)@.idle_ops()
                },
            },
    {
        proof {
            use_type_invariant(&*self);
        }
        let mut slot: u8 = 0;
        while slot < INTERRUPT_PIPES
            invariant
                slot <= INTERRUPT_PIPES,
                *self == *old(self),
                self@.wf(),
                ops@ == old(ops)@,
                self@.first_ready(controls@, slot as nat) is None,
            decreases INTERRUPT_PIPES - slot,
        {
            if self.pipes.contains(slot) {
                let pipe = slot + 1;
                let reg = controls[pipe as usize];
                if reg.half_0.full {
                    proof {
                        lemma_first_ready_found(
                            self@,
                            controls@,
                            slot as int,
                            INTERRUPT_PIPES as nat,
                        );
                        assert(self@.slots().contains(slot as int));
                    }
                    let mut pipe_info = self.pipe_info;
                    let info = pipe_info[pipe as usize].unwrap();
                    let packet = read_packet(info.address, info.endpoint, reg, &buffers[pipe as usize]);
                    let toggled = PipeInfo {
                        address: info.address,
                        endpoint: info.endpoint,
                        max_packet_size: info.max_packet_size,
                        data_toggle: !info.data_toggle,
                    };
                    pipe_info[pipe as usize] = Some(toggled);
                    push_rearm_ops(ops, pipe, toggled.data_toggle, info.max_packet_size as u16);
                    proof {
                        assert(pipe_info@ =~= self@.received(slot as int).info);
                    }
                    self.pipe_info = pipe_info;
                    return Some(packet);
                }
            }
            slot += 1;
        }
        let mut sources = InterruptSet::none();
        sources.buff_status = true;
        ops.push(HwOp::EnableInterrupts { sources });
        ops.push(HwOp::PollEndpoints { mask: self.pipes.bits() << 1 });
        let mut mask: u32 = 0;
        let mut slot: u8 = 0;
        while slot < INTERRUPT_PIPES
            invariant
                slot <= INTERRUPT_PIPES,
                *self == *old(self),
                mask == self@.stall_nak_mask(slot as nat),
            decreases INTERRUPT_PIPES - slot,
        {
            if self.pipes.contains(slot) {
                let shift: u32 = (slot as u32) * 2;
                mask = mask | (3u32 << shift);
            }
            slot += 1;
        }
        ops.push(HwOp::WriteStallNak { bits: mask });
        None
    }

    /// Removes the device at `address`: every slot held for one of its
    /// endpoints goes back to `pool`, the endpoint is forgotten, and the
    /// slot's buffer is taken back from the peripheral. The other slots are
    /// left as they are. A slot freed here can be added again at once.
    pub fn remove(&mut self, pool: &mut Pool, address: u8, ops: &mut Vec<HwOp>)
        ensures
            old(self)@.wf(),
            final(self)@.wf(),
            final(pool).size() == old(pool).size(),
            forall|slot: int|
                final(self)@.slots().contains(slot) <==> old(self)@.slots().contains(slot) && !old(
                    self,
                )@.belongs(slot, address),
            forall|slot: int|
                final(pool)@.contains(slot) <==> old(pool)@.contains(slot) && !old(self)@.belongs(
                    slot,
                    address,
                ),
            forall|pipe: int|
                0 <= pipe < 16 ==> final(self)@.info[pipe] == if old(self)@.belongs(
                    pipe - 1,
                    address,
                ) {
                    None
                } else {
                    old(self)@.info[pipe]
                },
            final(ops)@ == old(ops)@ + old(self)@.remove_ops(address, INTERRUPT_PIPES as nat),
    {
        proof {
            use_type_invariant(&*self);
        }
        let mut pipes = MultiPooled::new();
        core::mem::swap(&mut self.pipes, &mut pipes);
        let mut pipe_info = self.pipe_info;
        let mut slot: u8 = 0;
        while slot < INTERRUPT_PIPES
            invariant
                slot <= INTERRUPT_PIPES,
                old(self)@.wf(),
                old(self)@.bits == old(self).pipes.spec_bits(),
                old(self)@.info == old(self).pipe_info@,
                pool.size() == old(pool).size(),
                forall|i: int|
                    pipes@.contains(i) <==> old(self)@.slots().contains(i) && !(i < slot && old(
                        self,
                    )@.belongs(i, address)),
                forall|i: int|
                    pool@.contains(i) <==> old(pool)@.contains(i) && !(i < slot && old(
                        self,
                    )@.belongs(i, address)),
                forall|pipe: int|
                    0 <= pipe < 16 ==> pipe_info@[pipe] == if pipe - 1 < slot && old(
                        self,
                    )@.belongs(pipe - 1, address) {
                        None
                    } else {
                        old(self)@.info[pipe]
                    },
                ops@ == old(ops)@ + old(self)@.remove_ops(address, slot as nat),
            decreases INTERRUPT_PIPES - slot,
        {
            if pipes.contains(slot) {
                let pipe = slot + 1;
                assert(old(self)@.slots().contains(slot as int));
                let info = pipe_info[pipe as usize].unwrap();
                if info.address == address {
                    pipes.dealloc(pool, slot);
                    pipe_info[pipe as usize] = None;
                    ops.push(HwOp::WriteBufferControl { pipe, value: BufferControl::zero() });
                }
            }
            slot += 1;
        }
        proof {
            let v = MultiPipeView { bits: pipes.spec_bits(), info: pipe_info@ };
            assert(v.slots() == pipes@);
            assert forall|i: int| #[trigger] v.slots().contains(i) implies 0 <= i < INTERRUPT_PIPES
                && v.info[i + 1] is Some by {
                assert(pipes@.contains(i));
                assert(old(self)@.slots().contains(i));
                assert(!old(self)@.belongs(i, address));
            }
        }
        *self = Self { pipes, pipe_info };
    }

    /// Gives every slot back to `pool` and forgets the endpoints.
    pub fn release(&mut self, pool: &mut Pool)
        ensures
            final(pool).size() == old(pool).size(),
            final(pool).wf(),
            final(pool)@ == old(pool)@.difference(old(self)@.slots()),
            final(self)@.slots() == Set::<int>::empty(),
            final(self)@.info == Seq::new(16, |i: int| None::<PipeInfo>),
            final(self)@.wf(),
    {
        let mut pipes = MultiPooled::new();
        core::mem::swap(&mut self.pipes, &mut pipes);
        pipes.release(pool);
        *self = Self { pipes, pipe_info: [None;16] };
        assert(self@.info =~= Seq::new(16, |i: int| None::<PipeInfo>));
    }
}

} // verus!
