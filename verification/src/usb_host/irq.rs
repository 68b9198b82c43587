//! What the interrupt handler decides.
//!
//! The handler itself only reads two registers, wakes tasks and writes
//! registers back; which tasks and which values is decided here. It moves no
//! data and it never waits.

use vstd::prelude::*;
use crate::usb_host::control::CONTROL_EVENTS;
use crate::usb_host::pool::{bit, bits_to_set, set_bit};

verus! {

/// Raw interrupt: connection or disconnection at the root port.
pub const INT_HOST_CONN_DIS: u32 = 0x1;

/// Raw interrupt: some flag of the buffer status register is set.
pub const INT_BUFF_STATUS: u32 = 0x10;

/// Written to the buffer status register once its flags have been turned
/// into wake-ups: clears every flag but the control pipe's two.
pub const BUFF_STATUS_ACK: u32 = 0xFFFF_FFFC;

/// Pipes whose buffer status flags the handler looks at: every hardware
/// pipe, the control pipe and the fifteen interrupt pipes.
pub const IRQ_PIPES: u8 = 16;

/// Whether either buffer-status flag of pipe `pipe` is set in `buff_status`.
pub open spec fn buffer_done(buff_status: u32, pipe: int) -> bool {
    buff_status & (3u32 << ((2 * pipe) as u32)) != 0
}

/// Whether the handler wakes the task that waits on pipe `pipe`: for a
/// buffer of the pipe that is done, if buffer status is among the interrupts,
/// and, for pipe zero, for any event of the control pipe.
pub open spec fn wakes_pipe(ints: u32, buff_status: u32, pipe: int) -> bool {
    ||| 0 <= pipe < IRQ_PIPES && ints & INT_BUFF_STATUS != 0 && buffer_done(buff_status, pipe)
    ||| pipe == 0 && ints & CONTROL_EVENTS != 0
}

/// What the interrupt handler has to do.
#[derive(Clone, Copy, Debug, PartialEq, Eq, Structural)]
pub struct IrqActions {
    /// Bit `n` is set if the task that waits on pipe `n` is to be woken.
    pub wake_pipes: u32,
    /// Whether the task that watches the root port is to be woken, after the
    /// speed field of the SIE status register has been written with ones,
    /// which clears the interrupt and leaves the speed as it is.
    pub wake_device: bool,
    /// The value to write to the buffer status register, if it is to be
    /// written.
    pub buff_status_ack: Option<u32>,
}

proof fn lemma_no_interrupts(x: u32)
    by (bit_vector)
    ensures
        0u32 & x == 0,
{
}

/// Turns the interrupt status `ints` and the buffer status `buff_status`,
/// both as just read, into the handler's actions. A call with no interrupt
/// pending asks for nothing.
pub fn on_irq(ints: u32, buff_status: u32) -> (a: IrqActions)
    ensures
        bits_to_set(a.wake_pipes) == Set::new(
            |pipe: int| 0 <= pipe < 32 && wakes_pipe(ints, buff_status, pipe),
        ),
        a.wake_device == (ints & INT_HOST_CONN_DIS != 0),
        a.buff_status_ack == if ints & INT_BUFF_STATUS != 0 {
            Some(BUFF_STATUS_ACK)
        } else {
            None
        },
        ints == 0 ==> a == (IrqActions { wake_pipes: 0, wake_device: false, buff_status_ack: None }),
{
    proof {
        lemma_no_interrupts(INT_BUFF_STATUS);
        lemma_no_interrupts(INT_HOST_CONN_DIS);
        lemma_no_interrupts(CONTROL_EVENTS);
    }
    let mut wake_pipes: u32 = 0;
    let mut buff_status_ack = None;
    assert(bits_to_set(0u32) =~= Set::<int>::empty()) by {
        assert forall|i: u32| i < 32 implies !bit(0u32, i) by {
            assert((0u32 >> i) & 1 == 0) by (bit_vector);
        }
    }
    if (ints & INT_BUFF_STATUS) != 0 {
        let mut i: u8 = 0;
        while i < IRQ_PIPES
            invariant
                i <= IRQ_PIPES,
                bits_to_set(wake_pipes) == Set::new(
                    |pipe: int| 0 <= pipe < i && buffer_done(buff_status, pipe),
                ),
            decreases IRQ_PIPES - i,
        {
            let shift: u32 = (i as u32) * 2;
            if (buff_status & (3u32 << shift)) != 0 {
                wake_pipes = set_bit(wake_pipes, i);
            }
            i += 1;
        }
        buff_status_ack = Some(BUFF_STATUS_ACK);
    }
    let wake_device = (ints & INT_HOST_CONN_DIS) != 0;
    if (ints & CONTROL_EVENTS) != 0 {
        wake_pipes = set_bit(wake_pipes, 0);
    }
    IrqActions { wake_pipes, wake_device, buff_status_ack }
}

/// The interrupt enables to keep once the handler has run: every source
/// still pending in `ints`, read again after the handler's writes, is
/// switched off, so that a flag that stays up cannot raise the interrupt
/// over and over. The task that waits for the source switches it on again.
pub fn storm_guard(inte: u32, ints: u32) -> (r: u32)
    ensures
        r == inte & !ints,
        ints == 0 ==> r == inte,
{
    assert(inte & !0u32 == inte) by (bit_vector);
    inte & !ints
}

} // verus!
