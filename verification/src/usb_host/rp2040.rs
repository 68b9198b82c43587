//! The host controller as the layers above it use it: it watches the root
//! port, carries out control transfers one at a time, and lends out the
//! interrupt pipes.

use vstd::prelude::*;
use crate::usb_host::control::{
    buffer_too_small,
    checked_direction,
    setup_ops,
    ControlTransfer,
    ControlView,
};
use crate::usb_host::device_detect::Rp2040DeviceDetect;
use crate::usb_host::host_controller::{DataPhase, DeviceStatus, UsbError};
use crate::usb_host::interrupt_pipe::{
    open_ops,
    InterruptPipeView,
    Rp2040InterruptPipe,
    INTERRUPT_PIPES,
};
use crate::usb_host::multi_interrupt_pipe::Rp2040MultiInterruptPipe;
use crate::usb_host::pool::{is_grant, Pool};
use crate::usb_host::registers::HwOp;
use crate::usb_host::wire::{EndpointType, SetupPacket};

verus! {

/// The pool of the interrupt pipes, shared by everything that polls an
/// endpoint of one controller. Slot `n` of the pool stands for hardware
/// pipe `n + 1`.
pub struct UsbStatics {
    pub bulk_pipes: Pool,
}

impl UsbStatics {
    /// A pool of the peripheral's fifteen interrupt pipes, all free.
    pub fn new() -> (s: Self)
        ensures
            s.bulk_pipes.size() == INTERRUPT_PIPES,
            s.bulk_pipes@ == Set::<int>::empty(),
            s.bulk_pipes.wf(),
    {
        Self { bulk_pipes: Pool::new(INTERRUPT_PIPES) }
    }
}

impl Default for UsbStatics {
    fn default() -> (s: Self)
        ensures
            s.bulk_pipes.size() == INTERRUPT_PIPES,
            s.bulk_pipes@ == Set::<int>::empty(),
    {
        Self::new()
    }
}

/// A hardware pipe, held until it is released: pipe 0 is the control pipe,
/// pipes 1 to 15 are the interrupt pipes.
#[derive(Debug)]
pub struct Pipe {
    pub n: u8,
}

/// Whether a request for one of the interrupt pipes is granted by a pool in
/// this state: its lowest free slot must stand for a pipe.
pub open spec fn pipe_free(pool: Pool) -> bool {
    exists|n: int| is_grant(pool.size(), pool@, n) && n < INTERRUPT_PIPES
}

/// The host controller.
pub struct Rp2040HostController {
    control_pipes: Pool,
}

impl Rp2040HostController {
    #[verifier::type_invariant]
    spec fn inv(self) -> bool {
        self.control_pipes.size() == 1 && self.control_pipes.wf()
    }

    /// Whether a control transfer is in flight.
    pub closed spec fn control_busy(&self) -> bool {
        self.control_pipes@.contains(0)
    }

    /// A controller with its control pipe free.
    pub fn new() -> (h: Self)
        ensures
            !h.control_busy(),
    {
        Self { control_pipes: Pool::new(1) }
    }

    fn take_control(&mut self) -> (granted: bool)
        ensures
            granted == !old(self).control_busy(),
            final(self).control_busy(),
    {
        proof {
            use_type_invariant(&*self);
        }
        let mut pool = Pool::new(1);
        core::mem::swap(&mut self.control_pipes, &mut pool);
        let r = pool.try_alloc();
        self.control_pipes = pool;
        r.is_some()
    }

    fn give_control(&mut self)
        ensures
            !final(self).control_busy(),
    {
        proof {
            use_type_invariant(&*self);
        }
        let mut pool = Pool::new(1);
        core::mem::swap(&mut self.control_pipes, &mut pool);
        pool.dealloc(0);
        self.control_pipes = pool;
    }

    /// Takes a pipe for an endpoint of the given type: the control pipe for a
    /// control endpoint, else the lowest free interrupt pipe. `None` means
    /// that no such pipe is free; the caller waits until one is released and
    /// asks again.
    pub fn alloc_pipe(&mut self, statics: &mut UsbStatics, endpoint_type: EndpointType) -> (r:
        Option<Pipe>)
        ensures
            final(statics).bulk_pipes.size() == old(statics).bulk_pipes.size(),
            endpoint_type == EndpointType::Control ==> {
                &&& r is Some <==> !old(self).control_busy()
                &&& r matches Some(pipe) ==> pipe.n == 0
                &&& final(self).control_busy()
                &&& final(statics).bulk_pipes@ == old(statics).bulk_pipes@
            },
            endpoint_type != EndpointType::Control ==> {
                &&& r is Some <==> pipe_free(old(statics).bulk_pipes)
                &&& r matches Some(pipe) ==> {
                    &&& 1 <= pipe.n <= INTERRUPT_PIPES
                    &&& is_grant(
                        old(statics).bulk_pipes.size(),
                        old(statics).bulk_pipes@,
                        pipe.n - 1,
                    )
                    &&& final(statics).bulk_pipes@ == old(statics).bulk_pipes@.insert(pipe.n - 1)
                }
                &&& r is None ==> final(statics).bulk_pipes@ == old(statics).bulk_pipes@
                &&& final(self).control_busy() == old(self).control_busy()
            },
    {
        match endpoint_type {
            EndpointType::Control => {
                if self.take_control() {
                    Some(Pipe { n: 0 })
                } else {
                    None
                }
            },
            _ => match alloc_bulk(&mut statics.bulk_pipes) {
                Some(n) => Some(Pipe { n: n + 1 }),
                None => None,
            },
        }
    }

    /// Gives a pipe back. Only this returns a pipe to its pool; nothing
    /// takes one back by force.
    pub fn release_pipe(&mut self, statics: &mut UsbStatics, pipe: Pipe)
        ensures
            final(statics).bulk_pipes.size() == old(statics).bulk_pipes.size(),
            pipe.n == 0 ==> !final(self).control_busy() && final(statics).bulk_pipes@ == old(statics).bulk_pipes@,
            pipe.n != 0 ==> final(self).control_busy() == old(self).control_busy() && final(statics).bulk_pipes@ == old(statics).bulk_pipes@.remove(pipe.n - 1),
    {
        if pipe.n == 0 {
            self.give_control();
        } else {
            statics.bulk_pipes.dealloc(pipe.n - 1);
        }
    }

    /// A fresh watcher of the root port. Each watcher starts from the
    /// assumption that nothing is attached.
    pub fn device_detect(&self) -> (d: Rp2040DeviceDetect)
        ensures
            d.last() == DeviceStatus::Absent,
    {
        Rp2040DeviceDetect::new()
    }

    /// Starts a control transfer. The caller's buffer is checked first: if it
    /// is shorter than the request asks for, the transfer fails with
    /// `BufferTooSmall` and nothing is touched. If the control pipe is taken
    /// by a transfer in flight, returns `None`: the caller waits until that
    /// transfer is finished and asks again. Else takes the control pipe,
    /// sends the SETUP packet and returns the transfer, which the caller
    /// resumes on each event of the control pipe and hands to
    /// [`Rp2040HostController::finish`] when it has ended or is given up.
    pub fn control_transfer(
        &mut self,
        address: u8,
        packet_size: u8,
        setup: SetupPacket,
        data_phase: DataPhase,
        ops: &mut Vec<HwOp>,
    ) -> (r: Option<Result<ControlTransfer, UsbError>>)
        requires
            packet_size > 0,
        ensures
            buffer_too_small(setup.wLength, data_phase) ==> {
                &&& r matches Some(Err(e))
                &&& e == UsbError::BufferTooSmall
                &&& final(self).control_busy() == old(self).control_busy()
                &&& final(ops)@ == old(ops)@
            },
            !buffer_too_small(setup.wLength, data_phase) && old(self).control_busy() ==> {
                &&& r is None
                &&& final(self).control_busy()
                &&& final(ops)@ == old(ops)@
            },
            !buffer_too_small(setup.wLength, data_phase) && !old(self).control_busy() ==> {
                &&& r matches Some(Ok(t))
                &&& t@ == ControlView::initial(address, packet_size, setup, data_phase)
                &&& t@.wf()
                &&& final(self).control_busy()
                &&& final(ops)@ == old(ops)@ + setup_ops(address, setup)
            },
    {
        let data = match checked_direction(setup.wLength, data_phase) {
            Err(e) => {
                return Some(Err(e));
            },
            Ok(data) => data,
        };
        if !self.take_control() {
            return None;
        }
        Some(Ok(ControlTransfer::start(address, packet_size, setup, data, ops)))
    }

    /// Ends a control transfer, whether it has run to its outcome or is
    /// given up half way: the control pipe is free again. Whatever the
    /// peripheral was in the middle of is left as it is.
    pub fn finish(&mut self, transfer: ControlTransfer)
        ensures
            !final(self).control_busy(),
    {
        self.give_control();
    }

    /// Takes the lowest free interrupt pipe for the inbound interrupt
    /// endpoint `endpoint` of the device at `address`, binds the pipe to it
    /// and offers its buffer for the first packet. `None` means that no pipe
    /// is free; the caller waits until one is released and asks again.
    pub fn alloc_interrupt_pipe(
        &self,
        statics: &mut UsbStatics,
        address: u8,
        endpoint: u8,
        max_packet_size: u16,
        interval_ms: u8,
        ops: &mut Vec<HwOp>,
    ) -> (r: Option<Rp2040InterruptPipe>)
        ensures
            final(statics).bulk_pipes.size() == old(statics).bulk_pipes.size(),
            r is Some <==> pipe_free(old(statics).bulk_pipes),
            r is None ==> final(statics).bulk_pipes@ == old(statics).bulk_pipes@ && final(ops)@
                == old(ops)@,
            r matches Some(p) ==> {
                &&& 1 <= p@.pipe <= INTERRUPT_PIPES
                &&& is_grant(
                    old(statics).bulk_pipes.size(),
                    old(statics).bulk_pipes@,
                    p@.pipe - 1,
                )
                &&& final(statics).bulk_pipes@ == old(statics).bulk_pipes@.insert(p@.pipe - 1)
                &&& p@ == (InterruptPipeView { pipe: p@.pipe, max_packet_size, data_toggle: false })
                &&& final(ops)@ == old(ops)@ + open_ops(
                    p@.pipe,
                    address,
                    endpoint,
                    max_packet_size,
                    interval_ms,
                )
            },
    {
        match alloc_bulk(&mut statics.bulk_pipes) {
            Some(n) => Some(
                Rp2040InterruptPipe::open(
                    n + 1,
                    address,
                    endpoint,
                    max_packet_size,
                    interval_ms,
                    ops,
                ),
            ),
            None => None,
        }
    }

    /// Gives an interrupt pipe back to the pool.
    pub fn release_interrupt_pipe(&self, statics: &mut UsbStatics, pipe: Rp2040InterruptPipe)
        ensures
            final(statics).bulk_pipes.size() == old(statics).bulk_pipes.size(),
            final(statics).bulk_pipes@ == old(statics).bulk_pipes@.remove(pipe@.pipe - 1),
    {
        let n = pipe.pipe();
        statics.bulk_pipes.dealloc(n - 1);
    }

    /// A multiplexed interrupt pipe that holds no slot yet.
    pub fn multi_interrupt_pipe(&self) -> (m: Rp2040MultiInterruptPipe)
        ensures
            m@.slots() == Set::<int>::empty(),
            m@.wf(),
    {
        Rp2040MultiInterruptPipe::new()
    }
}

/// Takes the lowest free slot of the pool of interrupt pipes, if it stands
/// for a pipe.
fn alloc_bulk(pool: &mut Pool) -> (r: Option<u8>)
    ensures
        final(pool).size() == old(pool).size(),
        r is Some <==> pipe_free(*old(pool)),
        r is None ==> final(pool)@ == old(pool)@,
        r matches Some(n) ==> n < INTERRUPT_PIPES && is_grant(
            old(pool).size(),
            old(pool)@,
            n as int,
        ) && final(pool)@ == old(pool)@.insert(n as int),
{
    match pool.try_alloc() {
        Some(n) => {
            if n < INTERRUPT_PIPES {
                Some(n)
            } else {
                pool.dealloc(n);
                assert(pool@ =~= old(pool)@);
                assert forall|m: int| is_grant(old(pool).size(), old(pool)@, m) implies m == n by {
                    if m < n {
                        assert(old(pool)@.contains(m));
                    } else if n < m {
                        assert(old(pool)@.contains(n as int));
                    }
                }
                None
            }
        },
        None => None,
    }
}

} // verus!
