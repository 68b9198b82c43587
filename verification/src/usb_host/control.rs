//! The control transfer engine.
//!
//! A control transfer is a SETUP packet, an optional data stage, and a status
//! stage. The engine is a state machine: it is started, which yields the
//! operations that send the SETUP packet, and it is resumed each time the
//! control pipe reports an event, which yields the operations to perform next
//! and, in the end, the outcome. Between two calls its caller waits.

use vstd::prelude::*;
use crate::usb_host::host_controller::{DataPhase, UsbError};
use crate::usb_host::packetiser::{
    DepacketiserView,
    InDepacketiser,
    InPacketiser,
    OutDepacketiser,
    OutPacketiser,
    PacketiserView,
};
use crate::usb_host::registers::{
    arm_ops,
    BufferControl,
    BufferHalf,
    HwOp,
    InterruptSet,
    SieStatus,
    ARM_DELAY,
    CONTROL_BUFFER,
};
use crate::usb_host::wire::{Direction, SetupPacket};

verus! {

/// Pattern written to the SIE status register on every look at the control
/// pipe: it clears the flags of the transaction that was looked at.
pub const CONTROL_STATUS_CLEAR: u32 = 0xFF0C_0000;

/// Pattern that clears every flag of the SIE status register.
pub const STATUS_CLEAR_ALL: u32 = 0xFFFF_FFFF;

/// Pattern that clears the error flags of the SIE status register.
pub const STATUS_CLEAR_ERRORS: u32 = 0xFF00_0000;

/// The two buffer-status flags of the control pipe.
pub const CONTROL_BUFFERS_DONE: u32 = 0x3;

/// The raw interrupts that concern the control pipe: transaction complete,
/// buffer status, receive timeout and stall.
pub const CONTROL_EVENTS: u32 = 0x458;

/// Whether the raw interrupt word reports anything of the control pipe.
pub open spec fn control_event(intr: u32) -> bool {
    intr & CONTROL_EVENTS != 0
}

/// The wait for the control pipe's next event, as one look at the registers.
pub struct Rp2040ControlEndpoint {}

impl Rp2040ControlEndpoint {
    /// A wait that has not looked yet.
    pub fn new() -> Self {
        Rp2040ControlEndpoint {  }
    }

    /// The interrupt sources that a pending wait enables again.
    pub open spec fn wait_sources() -> InterruptSet {
        InterruptSet {
            stall: true,
            error_rx_timeout: true,
            trans_complete: true,
            ..InterruptSet::spec_none()
        }
    }

    /// What one look does to the peripheral: the status flags are cleared
    /// whether or not anything was reported, and if nothing was, the
    /// interrupts that end the wait are enabled again. Whether the clearing
    /// is needed when nothing was reported, or can hide a flag that was
    /// raised in between, is for the peripheral's data sheet to settle.
    pub open spec fn poll_ops(intr: u32) -> Seq<HwOp> {
        if control_event(intr) {
            seq![HwOp::WriteSieStatus { bits: CONTROL_STATUS_CLEAR }]
        } else {
            seq![
                HwOp::WriteSieStatus { bits: CONTROL_STATUS_CLEAR },
                HwOp::EnableInterrupts { sources: Self::wait_sources() },
            ]
        }
    }

    /// One look: `intr` is the raw interrupt word and `status` the SIE status
    /// as just read. Returns the status if the control pipe has an event to
    /// report, `None` if the wait goes on.
    pub fn poll(&self, intr: u32, status: SieStatus, ops: &mut Vec<HwOp>) -> (r: Option<SieStatus>)
        ensures
            r == if control_event(intr) {
                Some(status)
            } else {
                None
            },
            final(ops)@ == old(ops)@ + Self::poll_ops(intr),
    {
        ops.push(HwOp::WriteSieStatus { bits: CONTROL_STATUS_CLEAR });
        if (intr & CONTROL_EVENTS) != 0 {
            Some(status)
        } else {
            let mut sources = InterruptSet::none();
            sources.stall = true;
            sources.error_rx_timeout = true;
            sources.trans_complete = true;
            ops.push(HwOp::EnableInterrupts { sources });
            None
        }
    }
}

/// What one stage of a control transfer is: its direction, the number that
/// decides how its buffers are used, and its packetiser and depacketiser.
pub ghost struct StageView {
    pub direction: Direction,
    /// One more than the number of full packets in the stage.
    pub packets: nat,
    pub packetiser: PacketiserView,
    /// Outbound only: offset of the next byte to send.
    pub offset: nat,
    /// Inbound: the depacketiser. Outbound: only its half counts.
    pub depacketiser: DepacketiserView,
}

/// A stage after a step, with the buffer-control word as the step left it and
/// the operations that the step asks for.
pub ghost struct StageStep {
    pub stage: StageView,
    pub reg: BufferControl,
    pub ops: Seq<HwOp>,
}

impl StageView {
    /// What holds of every stage.
    pub open spec fn wf(self) -> bool {
        &&& self.packetiser.wf()
        &&& self.depacketiser.wf()
        &&& self.size() <= u16::MAX
        &&& self.direction == Direction::In ==> self.offset == 0 && self.packetiser.remain
            <= self.depacketiser.size
        &&& self.direction == Direction::Out ==> self.depacketiser.size == 0
    }

    /// Size of the stage in bytes.
    pub open spec fn size(self) -> nat {
        match self.direction {
            Direction::In => self.depacketiser.size,
            Direction::Out => self.offset + self.packetiser.remain,
        }
    }

    /// One call of the packetiser's `prepare`.
    pub open spec fn prepare(self, reg: BufferControl) -> StageStep {
        let v = self.packetiser;
        if !v.arms(reg) {
            StageStep { stage: self, reg, ops: Seq::empty() }
        } else {
            match self.direction {
                Direction::In => StageStep {
                    stage: StageView { packetiser: v.armed(), ..self },
                    reg: reg.with_half(v.next_half, InPacketiser::armed_half(v)),
                    ops: arm_ops(
                        0,
                        v.next_half,
                        Some(false),
                        v.next_pid(),
                        v.next_last(),
                        v.next_length() as u16,
                    ),
                },
                Direction::Out => StageStep {
                    stage: StageView {
                        packetiser: v.armed(),
                        offset: self.offset + v.next_length(),
                        ..self
                    },
                    reg: reg.with_half(
                        v.next_half,
                        OutPacketiser::armed_half(v, reg.half(v.next_half)),
                    ),
                    ops: OutPacketiser::send_ops(v, self.offset),
                },
            }
        }
    }

    /// One call of the depacketiser's `retire`.
    pub open spec fn retire(self, reg: BufferControl) -> StageStep {
        StageStep {
            stage: StageView { depacketiser: self.depacketiser.step(reg), ..self },
            reg,
            ops: if self.depacketiser.retires(reg) {
                self.depacketiser.copy_ops(reg)
            } else {
                Seq::empty()
            },
        }
    }

    /// The interrupt sources enabled while the stage waits: those of a
    /// transfer, and buffer status if the stage has more packets than the
    /// two buffer halves hold.
    pub open spec fn wait_sources(self) -> InterruptSet {
        InterruptSet { buff_status: self.packets > 2, ..InterruptSet::spec_transfer() }
    }

    /// Arming: up to two packets are prepared, status flags are cleared and
    /// the interrupts enabled.
    #[verifier::opaque]
    pub open spec fn arm(self, reg: BufferControl) -> StageStep {
        let a = self.prepare(reg);
        let b = a.stage.prepare(a.reg);
        StageStep {
            stage: b.stage,
            reg: b.reg,
            ops: a.ops + b.ops + seq![
                HwOp::WriteSieStatus { bits: STATUS_CLEAR_ERRORS },
                HwOp::WriteBuffStatus { bits: CONTROL_BUFFERS_DONE },
                HwOp::EnableInterrupts { sources: self.wait_sources() },
            ],
        }
    }

    /// The operations that set the transaction going, once per stage.
    pub open spec fn start_ops(direction: Direction) -> Seq<HwOp> {
        seq![
            HwOp::SieCtrlDirection {
                receive_data: direction == Direction::In,
                send_data: direction == Direction::Out,
            },
            HwOp::Delay { cycles: ARM_DELAY },
            HwOp::SieCtrlStartTrans,
        ]
    }

    /// A stage of `size` bytes before anything is armed.
    pub open spec fn initial(direction: Direction, size: nat, packet_size: nat) -> StageView {
        StageView {
            direction,
            packets: size / packet_size + 1,
            packetiser: PacketiserView {
                remain: size,
                packet_size,
                zero_pending: match direction {
                    Direction::In => size == 0,
                    Direction::Out => size > 0 && size % packet_size == 0,
                },
                next_half: 0,
            },
            offset: 0,
            depacketiser: DepacketiserView {
                size: match direction {
                    Direction::In => size,
                    Direction::Out => 0,
                },
                total: 0,
                next_half: 0,
            },
        }
    }

    /// The operations that set the control pipe up for a stage.
    pub open spec fn setup_ops(packets: nat) -> Seq<HwOp> {
        seq![
            HwOp::WriteEpxControl {
                buffer_address: CONTROL_BUFFER,
                double_buffered: packets > 1,
                interrupt_per_buff: packets > 1,
                enable: true,
            },
            HwOp::WriteBufferControl { pipe: 0, value: BufferControl::spec_zero() },
        ]
    }

    /// The operations that address the stage to its device.
    pub open spec fn address_ops(address: u8) -> Seq<HwOp> {
        seq![
            HwOp::WriteSieStatus { bits: STATUS_CLEAR_ALL },
            HwOp::WriteAddrEndp { address, endpoint: 0 },
        ]
    }

    /// Beginning a stage: the pipe is set up, the first packet, if there is
    /// one, is armed in the first half and the second, if there is one, in
    /// the second half, and the transaction is started. `prepare` is called
    /// three times, but at most two packets are armed: the third call finds
    /// the half that is due still with the peripheral, or no packet left.
    #[verifier::opaque]
    pub open spec fn begin(address: u8, direction: Direction, size: nat, packet_size: nat) -> StageStep {
        let s = Self::initial(direction, size, packet_size);
        let a = s.prepare(BufferControl::spec_zero());
        let b = a.stage.arm(a.reg);
        StageStep {
            stage: b.stage,
            reg: b.reg,
            ops: Self::setup_ops(s.packets) + a.ops + Self::address_ops(address) + b.ops
                + Self::start_ops(direction),
        }
    }

    /// The operations that every event of a stage begins with.
    pub open spec fn wake_ops() -> Seq<HwOp> {
        seq![
            HwOp::WriteBuffStatus { bits: CONTROL_BUFFERS_DONE },
            HwOp::DisableInterrupts { sources: InterruptSet::spec_transfer() },
        ]
    }

    /// How an event ends the stage, if it does: completion comes before any
    /// error, and an error before going on.
    pub open spec fn outcome(status: SieStatus) -> Option<Result<(), UsbError>> {
        if status.trans_complete {
            Some(Ok(()))
        } else {
            match status.spec_error() {
                Some(e) => Some(Err(e)),
                None => None,
            }
        }
    }

    /// Resuming a stage on an event, shown the status and the control pipe's
    /// buffer-control word. On completion both halves are retired; on an
    /// error nothing more is done; else both halves are retired and the
    /// stage is armed again.
    #[verifier::opaque]
    pub open spec fn resume(self, status: SieStatus, reg: BufferControl) -> StageStep {
        if status.trans_complete {
            let a = self.retire(reg);
            let b = a.stage.retire(reg);
            StageStep {
                stage: b.stage,
                reg,
                ops: Self::wake_ops() + a.ops + seq![
                    HwOp::WriteSieStatus { bits: STATUS_CLEAR_ERRORS },
                ] + b.ops,
            }
        } else if status.spec_error() is Some {
            StageStep { stage: self, reg, ops: Self::wake_ops() }
        } else {
            let a = self.retire(reg);
            let b = a.stage.retire(reg);
            let c = b.stage.arm(reg);
            StageStep { stage: c.stage, reg: c.reg, ops: Self::wake_ops() + a.ops + b.ops + c.ops }
        }
    }
}

enum Engine {
    In(InPacketiser, InDepacketiser),
    Out(OutPacketiser, OutDepacketiser),
}

/// One stage of a control transfer in progress: a data stage, or the status
/// stage, which is an inbound stage of no bytes.
pub struct Stage {
    packets: usize,
    engine: Engine,
}

impl View for Stage {
    type V = StageView;

    closed spec fn view(&self) -> StageView {
        match self.engine {
            Engine::In(packetiser, depacketiser) => StageView {
                direction: Direction::In,
                packets: self.packets as nat,
                packetiser: packetiser@,
                offset: 0,
                depacketiser: depacketiser@,
            },
            Engine::Out(packetiser, depacketiser) => StageView {
                direction: Direction::Out,
                packets: self.packets as nat,
                packetiser: packetiser@,
                offset: packetiser.offset(),
                depacketiser: DepacketiserView {
                    size: 0,
                    total: 0,
                    next_half: depacketiser.next_half(),
                },
            },
        }
    }
}

impl Stage {
    /// Size of the stage in bytes, which no stage exceeds.
    pub open spec fn max_size() -> nat {
        u16::MAX as nat
    }

    fn prepare(&mut self, reg: &mut BufferControl, ops: &mut Vec<HwOp>)
        ensures
            old(self)@.wf() ==> final(self)@.wf(),
            final(self)@.size() == old(self)@.size(),
            final(self)@.direction == old(self)@.direction,
            final(self)@.packets == old(self)@.packets,
            final(self)@ == old(self)@.prepare(*old(reg)).stage,
            *final(reg) == old(self)@.prepare(*old(reg)).reg,
            final(ops)@ == old(ops)@ + old(self)@.prepare(*old(reg)).ops,
    {
        match &mut self.engine {
            Engine::In(packetiser, depacketiser) => {
                packetiser.prepare(reg, ops);
            },
            Engine::Out(packetiser, depacketiser) => {
                packetiser.prepare(reg, ops);
            },
        }
    }

    fn retire(&mut self, reg: BufferControl, ops: &mut Vec<HwOp>)
        ensures
            old(self)@.wf() ==> final(self)@.wf(),
            final(self)@.size() == old(self)@.size(),
            final(self)@.direction == old(self)@.direction,
            final(self)@.packets == old(self)@.packets,
            final(self)@ == old(self)@.retire(reg).stage,
            final(ops)@ == old(ops)@ + old(self)@.retire(reg).ops,
    {
        match &mut self.engine {
            Engine::In(packetiser, depacketiser) => {
                depacketiser.retire(reg, ops);
            },
            Engine::Out(packetiser, depacketiser) => {
                depacketiser.retire(reg);
            },
        }
    }

    fn arm(&mut self, reg: &mut BufferControl, ops: &mut Vec<HwOp>)
        ensures
            old(self)@.wf() ==> final(self)@.wf(),
            final(self)@.size() == old(self)@.size(),
            final(self)@.direction == old(self)@.direction,
            final(self)@.packets == old(self)@.packets,
            final(self)@ == old(self)@.arm(*old(reg)).stage,
            *final(reg) == old(self)@.arm(*old(reg)).reg,
            final(ops)@ == old(ops)@ + old(self)@.arm(*old(reg)).ops,
    {
        proof {
            reveal(StageView::arm);
        }
        let buff_status = self.packets > 2;
        self.prepare(reg, ops);
        self.prepare(reg, ops);
        ops.push(HwOp::WriteSieStatus { bits: STATUS_CLEAR_ERRORS });
        ops.push(HwOp::WriteBuffStatus { bits: CONTROL_BUFFERS_DONE });
        let mut sources = InterruptSet::transfer();
        sources.buff_status = buff_status;
        ops.push(HwOp::EnableInterrupts { sources });
    }

    /// Begins a stage of `size` bytes in `direction` with the device at
    /// `address`: sets the control pipe up, arms the first packet and the
    /// second, as far as there are any, and starts the transaction. The
    /// caller then waits for the control pipe's next event and hands it to
    /// [`Stage::resume`].
    pub fn begin(
        address: u8,
        packet_size: u8,
        direction: Direction,
        size: u16,
        ops: &mut Vec<HwOp>,
    ) -> (stage: Stage)
        requires
            packet_size > 0,
        ensures
            stage@ == StageView::begin(address, direction, size as nat, packet_size as nat).stage,
            final(ops)@ == old(ops)@ + StageView::begin(
                address,
                direction,
                size as nat,
                packet_size as nat,
            ).ops,
            stage@.wf(),
            stage@.size() == size,
            stage@.direction == direction,
    {
        proof {
            reveal(StageView::begin);
        }
        let packets = (size as usize) / (packet_size as usize) + 1;
        let engine = match direction {
            Direction::In => Engine::In(
                InPacketiser::new(size, packet_size as u16),
                InDepacketiser::new(size),
            ),
            Direction::Out => Engine::Out(
                OutPacketiser::new(size, packet_size as u16),
                OutDepacketiser::new(),
            ),
        };
        let mut stage = Stage { packets, engine };
        assert(stage@ == StageView::initial(direction, size as nat, packet_size as nat));
        ops.push(
            HwOp::WriteEpxControl {
                buffer_address: CONTROL_BUFFER,
                double_buffered: packets > 1,
                interrupt_per_buff: packets > 1,
                enable: true,
            },
        );
        let mut reg = BufferControl::zero();
        ops.push(HwOp::WriteBufferControl { pipe: 0, value: reg });
        stage.prepare(&mut reg, ops);
        ops.push(HwOp::WriteSieStatus { bits: STATUS_CLEAR_ALL });
        ops.push(HwOp::WriteAddrEndp { address, endpoint: 0 });
        stage.arm(&mut reg, ops);
        ops.push(
            HwOp::SieCtrlDirection {
                receive_data: direction == Direction::In,
                send_data: direction == Direction::Out,
            },
        );
        ops.push(HwOp::Delay { cycles: ARM_DELAY });
        ops.push(HwOp::SieCtrlStartTrans);
        stage
    }

    /// Resumes the stage on an event of the control pipe. `status` is the SIE
    /// status that the wait returned and `reg` the control pipe's
    /// buffer-control word as read now. Returns `None` if the stage goes on,
    /// and the caller waits again; `Some(Ok(()))` if the transaction is
    /// complete; `Some(Err(_))` for the first error flag set, with nothing
    /// retried.
    pub fn resume(&mut self, status: SieStatus, reg: BufferControl, ops: &mut Vec<HwOp>) -> (r:
        Option<Result<(), UsbError>>)
        ensures
            r == StageView::outcome(status),
            final(self)@ == old(self)@.resume(status, reg).stage,
            final(ops)@ == old(ops)@ + old(self)@.resume(status, reg).ops,
            old(self)@.wf() ==> final(self)@.wf(),
            final(self)@.size() == old(self)@.size(),
            final(self)@.direction == old(self)@.direction,
            final(self)@.packets == old(self)@.packets,
    {
        proof {
            reveal(StageView::resume);
        }
        ops.push(HwOp::WriteBuffStatus { bits: CONTROL_BUFFERS_DONE });
        ops.push(HwOp::DisableInterrupts { sources: InterruptSet::transfer() });
        if status.trans_complete {
            self.retire(reg, ops);
            ops.push(HwOp::WriteSieStatus { bits: STATUS_CLEAR_ERRORS });
            self.retire(reg, ops);
            return Some(Ok(()));
        }
        if let Some(e) = status.error() {
            return Some(Err(e));
        }
        self.retire(reg, ops);
        self.retire(reg, ops);
        let mut mirror = reg;
        self.arm(&mut mirror, ops);
        None
    }

    /// Bytes received so far; zero for an outbound stage.
    pub fn total(&self) -> (t: usize)
        ensures
            t == self@.depacketiser.total,
            self@.direction == Direction::In ==> t <= self@.size(),
            t <= u16::MAX,
    {
        match &self.engine {
            Engine::In(packetiser, depacketiser) => depacketiser.total(),
            Engine::Out(packetiser, depacketiser) => 0,
        }
    }
}

/// Where a control transfer stands.
#[derive(Clone, Copy, Debug, PartialEq, Eq, Structural)]
pub enum ControlState {
    /// The SETUP packet is on its way.
    SendSetup,
    /// The data stage is in progress.
    DataStage,
    /// The status stage is in progress.
    StatusStage,
    /// The transfer has ended, well or badly.
    Done,
}

/// Where a control transfer stands, with what it holds there.
pub ghost enum PhaseView {
    SendSetup,
    Data(StageView),
    Status(StageView),
    Done(Result<usize, UsbError>),
}

/// What a control transfer is: the request it carries out, and its phase.
pub ghost struct ControlView {
    pub address: u8,
    pub packet_size: u8,
    /// Bytes that the request asks for: `wLength` of its SETUP packet.
    pub length: u16,
    /// Direction of the data stage; `None` if the transfer has none.
    pub data: Option<Direction>,
    pub phase: PhaseView,
}

/// A control transfer after a step, with the operations that the step asks
/// for and the outcome, if the step was the last.
pub ghost struct ControlStep {
    pub view: ControlView,
    pub ops: Seq<HwOp>,
    pub outcome: Option<Result<usize, UsbError>>,
}

/// The direction of the data stage of a request for `length` bytes: there is
/// a data stage only if bytes are asked for and the caller names a direction.
pub open spec fn data_direction(length: u16, data_phase: DataPhase) -> Option<Direction> {
    if length == 0 {
        None
    } else {
        match data_phase {
            DataPhase::In(_) => Some(Direction::In),
            DataPhase::Out(_) => Some(Direction::Out),
            DataPhase::NoData => None,
        }
    }
}

/// Whether the caller's buffer is too short for the bytes asked for.
pub open spec fn buffer_too_small(length: u16, data_phase: DataPhase) -> bool {
    match data_phase {
        DataPhase::In(capacity) => capacity < length,
        DataPhase::Out(len) => len < length,
        DataPhase::NoData => false,
    }
}

/// Settles the data stage of a request for `length` bytes: fails with
/// `BufferTooSmall` if the caller's buffer is shorter than that, and else
/// gives the direction of the data stage, if there is one.
pub fn checked_direction(length: u16, data_phase: DataPhase) -> (r: Result<
    Option<Direction>,
    UsbError,
>)
    ensures
        buffer_too_small(length, data_phase) ==> r == Err::<Option<Direction>, UsbError>(
            UsbError::BufferTooSmall,
        ),
        !buffer_too_small(length, data_phase) ==> r == Ok::<Option<Direction>, UsbError>(
            data_direction(length, data_phase),
        ),
{
    let direction = match data_phase {
        DataPhase::In(capacity) => {
            if capacity < length as usize {
                return Err(UsbError::BufferTooSmall);
            }
            Some(Direction::In)
        },
        DataPhase::Out(len) => {
            if len < length as usize {
                return Err(UsbError::BufferTooSmall);
            }
            Some(Direction::Out)
        },
        DataPhase::NoData => None,
    };
    if length == 0 {
        Ok(None)
    } else {
        Ok(direction)
    }
}

/// The operations that send a SETUP packet to the device at `address`.
pub open spec fn setup_ops(address: u8, setup: SetupPacket) -> Seq<HwOp> {
    seq![
        HwOp::WriteEpxControl {
            buffer_address: CONTROL_BUFFER,
            double_buffered: false,
            interrupt_per_buff: false,
            enable: false,
        },
        HwOp::WriteBufferControl { pipe: 0, value: BufferControl::spec_zero() },
        HwOp::WriteSetupPacket { setup },
        HwOp::WriteSieStatus { bits: STATUS_CLEAR_ALL },
        HwOp::WriteAddrEndp { address, endpoint: 0 },
        HwOp::SieCtrlSendSetup,
        HwOp::Delay { cycles: ARM_DELAY },
        HwOp::SieCtrlStartTrans,
    ]
}

impl ControlView {
    /// What holds of every control transfer.
    pub open spec fn wf(self) -> bool {
        &&& self.packet_size > 0
        &&& self.data is Some ==> self.length > 0
        &&& match self.phase {
            PhaseView::SendSetup => true,
            PhaseView::Data(stage) => {
                &&& stage.wf()
                &&& self.data == Some(stage.direction)
                &&& stage.size() == self.length
            },
            PhaseView::Status(stage) => {
                &&& stage.wf()
                &&& stage.direction == Direction::In
                &&& stage.size() == 0
            },
            PhaseView::Done(r) => r matches Ok(n) ==> n <= self.length,
        }
    }

    /// The state, without what is held there.
    pub open spec fn state(self) -> ControlState {
        match self.phase {
            PhaseView::SendSetup => ControlState::SendSetup,
            PhaseView::Data(_) => ControlState::DataStage,
            PhaseView::Status(_) => ControlState::StatusStage,
            PhaseView::Done(_) => ControlState::Done,
        }
    }

    /// A transfer whose SETUP packet has just been sent.
    pub open spec fn initial(
        address: u8,
        packet_size: u8,
        setup: SetupPacket,
        data_phase: DataPhase,
    ) -> ControlView {
        ControlView {
            address,
            packet_size,
            length: setup.wLength,
            data: data_direction(setup.wLength, data_phase),
            phase: PhaseView::SendSetup,
        }
    }

    /// The status stage: an inbound stage of no bytes.
    pub open spec fn status_stage(self) -> StageStep {
        StageView::begin(self.address, Direction::In, 0, self.packet_size as nat)
    }

    /// The count that a transfer reports when its status stage completes:
    /// the bytes sent by an outbound data stage, else none.
    pub open spec fn sent(self) -> usize {
        if self.data == Some(Direction::Out) {
            self.length as usize
        } else {
            0
        }
    }

    /// Ending the transfer with `r`, after operations `ops`.
    pub open spec fn done(self, r: Result<usize, UsbError>, ops: Seq<HwOp>) -> ControlStep {
        ControlStep {
            view: ControlView { phase: PhaseView::Done(r), ..self },
            ops,
            outcome: Some(r),
        }
    }

    /// Resuming the transfer on an event of the control pipe.
    ///
    /// While the SETUP packet is on its way, completion begins the data stage
    /// if there is one and else the status stage; an error ends the transfer;
    /// anything else changes nothing. A data stage that completes ends the
    /// transfer with the count of bytes received if it was inbound, and is
    /// followed by the status stage if it was outbound. The status stage that
    /// completes ends the transfer. An error in any stage ends the transfer
    /// with that error. A transfer that has ended reports its outcome again.
    pub open spec fn resume(self, status: SieStatus, reg: BufferControl) -> ControlStep {
        match self.phase {
            PhaseView::SendSetup => match StageView::outcome(status) {
                Some(Ok(_)) => match self.data {
                    Some(direction) => {
                        let b = StageView::begin(
                            self.address,
                            direction,
                            self.length as nat,
                            self.packet_size as nat,
                        );
                        ControlStep {
                            view: ControlView { phase: PhaseView::Data(b.stage), ..self },
                            ops: b.ops,
                            outcome: None,
                        }
                    },
                    None => {
                        let b = self.status_stage();
                        ControlStep {
                            view: ControlView { phase: PhaseView::Status(b.stage), ..self },
                            ops: b.ops,
                            outcome: None,
                        }
                    },
                },
                Some(Err(e)) => self.done(Err(e), Seq::empty()),
                None => ControlStep { view: self, ops: Seq::empty(), outcome: None },
            },
            PhaseView::Data(stage) => {
                let s = stage.resume(status, reg);
                match StageView::outcome(status) {
                    Some(Ok(_)) => match stage.direction {
                        Direction::In => self.done(Ok(s.stage.depacketiser.total as usize), s.ops),
                        Direction::Out => {
                            let b = self.status_stage();
                            ControlStep {
                                view: ControlView { phase: PhaseView::Status(b.stage), ..self },
                                ops: s.ops + b.ops,
                                outcome: None,
                            }
                        },
                    },
                    Some(Err(e)) => self.done(Err(e), s.ops),
                    None => ControlStep {
                        view: ControlView { phase: PhaseView::Data(s.stage), ..self },
                        ops: s.ops,
                        outcome: None,
                    },
                }
            },
            PhaseView::Status(stage) => {
                let s = stage.resume(status, reg);
                match StageView::outcome(status) {
                    Some(Ok(_)) => self.done(Ok(self.sent()), s.ops),
                    Some(Err(e)) => self.done(Err(e), s.ops),
                    None => ControlStep {
                        view: ControlView { phase: PhaseView::Status(s.stage), ..self },
                        ops: s.ops,
                        outcome: None,
                    },
                }
            },
            PhaseView::Done(r) => ControlStep { view: self, ops: Seq::empty(), outcome: Some(r) },
        }
    }
}

enum Phase {
    SendSetup,
    Data(Stage),
    Status(Stage),
    Done(Result<usize, UsbError>),
}

impl View for Phase {
    type V = PhaseView;

    closed spec fn view(&self) -> PhaseView {
        match self {
            Phase::SendSetup => PhaseView::SendSetup,
            Phase::Data(stage) => PhaseView::Data(stage@),
            Phase::Status(stage) => PhaseView::Status(stage@),
            Phase::Done(r) => PhaseView::Done(*r),
        }
    }
}

impl Phase {
    fn resume(
        &mut self,
        address: u8,
        packet_size: u8,
        length: u16,
        data: Option<Direction>,
        status: SieStatus,
        reg: BufferControl,
        ops: &mut Vec<HwOp>,
    ) -> (r: Option<Result<usize, UsbError>>)
        requires
            (ControlView { address, packet_size, length, data, phase: old(self)@ }).wf(),
        ensures
            ({
                let before = ControlView { address, packet_size, length, data, phase: old(self)@ };
                let step = before.resume(status, reg);
                &&& step.view == (ControlView { phase: final(self)@, ..before })
                &&& step.view.wf()
                &&& final(ops)@ == old(ops)@ + step.ops
                &&& r == step.outcome
            }),
    {
        let sent = if let Some(Direction::Out) = data {
            length as usize
        } else {
            0
        };
        let (phase, r) = match self {
            Phase::SendSetup => {
                if status.trans_complete {
                    match data {
                        Some(direction) => {
                            let stage = Stage::begin(address, packet_size, direction, length, ops);
                            (Some(Phase::Data(stage)), None)
                        },
                        None => {
                            let stage = Stage::begin(address, packet_size, Direction::In, 0, ops);
                            (Some(Phase::Status(stage)), None)
                        },
                    }
                } else {
                    match status.error() {
                        Some(e) => (Some(Phase::Done(Err(e))), Some(Err(e))),
                        None => (None, None),
                    }
                }
            },
            Phase::Data(stage) => {
                match stage.resume(status, reg, ops) {
                    Some(Ok(_)) => match data {
                        Some(Direction::Out) => {
                            let status_stage = Stage::begin(
                                address,
                                packet_size,
                                Direction::In,
                                0,
                                ops,
                            );
                            (Some(Phase::Status(status_stage)), None)
                        },
                        _ => {
                            let total = stage.total();
                            (Some(Phase::Done(Ok(total))), Some(Ok(total)))
                        },
                    },
                    Some(Err(e)) => (Some(Phase::Done(Err(e))), Some(Err(e))),
                    None => (None, None),
                }
            },
            Phase::Status(stage) => {
                match stage.resume(status, reg, ops) {
                    Some(Ok(_)) => (Some(Phase::Done(Ok(sent))), Some(Ok(sent))),
                    Some(Err(e)) => (Some(Phase::Done(Err(e))), Some(Err(e))),
                    None => (None, None),
                }
            },
            Phase::Done(r) => (None, Some(*r)),
        };
        if let Some(phase) = phase {
            *self = phase;
        }
        r
    }
}

/// One control transfer in progress.
pub struct ControlTransfer {
    address: u8,
    packet_size: u8,
    length: u16,
    data: Option<Direction>,
    phase: Phase,
}

impl View for ControlTransfer {
    type V = ControlView;

    closed spec fn view(&self) -> ControlView {
        ControlView {
            address: self.address,
            packet_size: self.packet_size,
            length: self.length,
            data: self.data,
            phase: self.phase@,
        }
    }
}

impl ControlTransfer {
    #[verifier::type_invariant]
    spec fn inv(self) -> bool {
        self@.wf()
    }

    /// Starts a control transfer with the device at `address`: checks the
    /// caller's buffer against the length that the request asks for, before
    /// anything is done to the peripheral, and sends the SETUP packet. The
    /// caller then waits for the control pipe's next event and hands it to
    /// [`ControlTransfer::resume`].
    pub fn new(
        address: u8,
        packet_size: u8,
        setup: SetupPacket,
        data_phase: DataPhase,
        ops: &mut Vec<HwOp>,
    ) -> (r: Result<ControlTransfer, UsbError>)
        requires
            packet_size > 0,
        ensures
            buffer_too_small(setup.wLength, data_phase) ==> r == Err::<ControlTransfer, UsbError>(
                UsbError::BufferTooSmall,
            ) && final(ops)@ == old(ops)@,
            !buffer_too_small(setup.wLength, data_phase) ==> {
                &&& r matches Ok(t)
                &&& t@ == ControlView::initial(address, packet_size, setup, data_phase)
                &&& t@.wf()
                &&& final(ops)@ == old(ops)@ + setup_ops(address, setup)
            },
    {
        match checked_direction(setup.wLength, data_phase) {
            Err(e) => Err(e),
            Ok(data) => Ok(Self::start(address, packet_size, setup, data, ops)),
        }
    }

    /// Starts a control transfer whose data stage has been settled: sends
    /// the SETUP packet.
    pub(crate) fn start(
        address: u8,
        packet_size: u8,
        setup: SetupPacket,
        data: Option<Direction>,
        ops: &mut Vec<HwOp>,
    ) -> (t: ControlTransfer)
        requires
            packet_size > 0,
            data is Some ==> setup.wLength > 0,
        ensures
            t@ == (ControlView {
                address,
                packet_size,
                length: setup.wLength,
                data,
                phase: PhaseView::SendSetup,
            }),
            t@.wf(),
            final(ops)@ == old(ops)@ + setup_ops(address, setup),
    {
        Self::send_setup(address, setup, ops);
        ControlTransfer { address, packet_size, length: setup.wLength, data, phase: Phase::SendSetup }
    }

    /// Appends the operations that send `setup` to the device at `address`.
    pub fn send_setup(address: u8, setup: SetupPacket, ops: &mut Vec<HwOp>)
        ensures
            final(ops)@ == old(ops)@ + setup_ops(address, setup),
    {
        ops.push(
            HwOp::WriteEpxControl {
                buffer_address: CONTROL_BUFFER,
                double_buffered: false,
                interrupt_per_buff: false,
                enable: false,
            },
        );
        ops.push(HwOp::WriteBufferControl { pipe: 0, value: BufferControl::zero() });
        ops.push(HwOp::WriteSetupPacket { setup });
        ops.push(HwOp::WriteSieStatus { bits: STATUS_CLEAR_ALL });
        ops.push(HwOp::WriteAddrEndp { address, endpoint: 0 });
        ops.push(HwOp::SieCtrlSendSetup);
        ops.push(HwOp::Delay { cycles: ARM_DELAY });
        ops.push(HwOp::SieCtrlStartTrans);
    }

    /// Where the transfer stands.
    pub fn state(&self) -> (s: ControlState)
        ensures
            s == self@.state(),
            self@.wf(),
    {
        proof {
            use_type_invariant(self);
        }
        match &self.phase {
            Phase::SendSetup => ControlState::SendSetup,
            Phase::Data(_) => ControlState::DataStage,
            Phase::Status(_) => ControlState::StatusStage,
            Phase::Done(_) => ControlState::Done,
        }
    }

    /// Resumes the transfer on an event of the control pipe. `status` is the
    /// SIE status that the wait returned and `reg` the control pipe's
    /// buffer-control word as read now. Returns `None` if the transfer goes
    /// on, and the caller waits again; else the outcome: the count of bytes
    /// transferred, or the error that ended the transfer.
    pub fn resume(&mut self, status: SieStatus, reg: BufferControl, ops: &mut Vec<HwOp>) -> (r:
        Option<Result<usize, UsbError>>)
        ensures
            old(self)@.wf(),
            final(self)@.wf(),
            final(self)@ == old(self)@.resume(status, reg).view,
            final(ops)@ == old(ops)@ + old(self)@.resume(status, reg).ops,
            r == old(self)@.resume(status, reg).outcome,
    {
        proof {
            use_type_invariant(&*self);
        }
        let address = self.address;
        let packet_size = self.packet_size;
        let length = self.length;
        let data = self.data;
        let mut phase = Phase::SendSetup;
        core::mem::swap(&mut self.phase, &mut phase);
        let r = phase.resume(address, packet_size, length, data, status, reg, ops);
        self.phase = phase;
        r
    }
}

/// Whether an operation, if it is a copy to or from the caller's buffer,
/// stays within the first `limit` bytes of that buffer.
pub open spec fn copy_within(op: HwOp, limit: nat) -> bool {
    match op {
        HwOp::CopyIn { half, offset, len } => half <= 1 && offset + len <= limit,
        HwOp::CopyOut { half, offset, len } => half <= 1 && offset + len <= limit,
        _ => true,
    }
}

/// Whether every copy among `ops` stays within the first `limit` bytes.
pub open spec fn copies_within(ops: Seq<HwOp>, limit: nat) -> bool {
    forall|i: int| 0 <= i < ops.len() ==> copy_within(#[trigger] ops[i], limit)
}

proof fn lemma_prepare_within(stage: StageView, reg: BufferControl)
    requires
        stage.wf(),
    ensures
        stage.prepare(reg).stage.wf(),
        stage.prepare(reg).stage.size() == stage.size(),
        stage.prepare(reg).stage.direction == stage.direction,
        copies_within(stage.prepare(reg).ops, stage.size()),
{
}

proof fn lemma_retire_within(stage: StageView, reg: BufferControl)
    requires
        stage.wf(),
    ensures
        stage.retire(reg).stage.wf(),
        stage.retire(reg).stage.size() == stage.size(),
        stage.retire(reg).stage.direction == stage.direction,
        copies_within(stage.retire(reg).ops, stage.size()),
{
}

proof fn lemma_arm_within(stage: StageView, reg: BufferControl)
    requires
        stage.wf(),
    ensures
        stage.arm(reg).stage.wf(),
        stage.arm(reg).stage.size() == stage.size(),
        stage.arm(reg).stage.direction == stage.direction,
        copies_within(stage.arm(reg).ops, stage.size()),
{
    reveal(StageView::arm);
    let a = stage.prepare(reg);
    lemma_prepare_within(stage, reg);
    lemma_prepare_within(a.stage, a.reg);
}

proof fn lemma_begin_within(address: u8, direction: Direction, size: nat, packet_size: nat)
    requires
        packet_size > 0,
        size <= u16::MAX,
    ensures
        StageView::begin(address, direction, size, packet_size).stage.wf(),
        StageView::begin(address, direction, size, packet_size).stage.size() == size,
        StageView::begin(address, direction, size, packet_size).stage.direction == direction,
        copies_within(StageView::begin(address, direction, size, packet_size).ops, size),
{
    reveal(StageView::begin);
    let s = StageView::initial(direction, size, packet_size);
    let a = s.prepare(BufferControl::spec_zero());
    lemma_prepare_within(s, BufferControl::spec_zero());
    lemma_arm_within(a.stage, a.reg);
}

proof fn lemma_stage_resume_within(stage: StageView, status: SieStatus, reg: BufferControl)
    requires
        stage.wf(),
    ensures
        stage.resume(status, reg).stage.wf(),
        stage.resume(status, reg).stage.size() == stage.size(),
        stage.resume(status, reg).stage.direction == stage.direction,
        copies_within(stage.resume(status, reg).ops, stage.size()),
{
    reveal(StageView::resume);
    let a = stage.retire(reg);
    let b = a.stage.retire(reg);
    lemma_retire_within(stage, reg);
    lemma_retire_within(a.stage, reg);
    lemma_arm_within(b.stage, reg);
}

/// Whether the copies among `ops`, in order, cover the bytes of the caller's
/// buffer from `from` up to `to` without gap or overlap: each copy begins
/// where the one before it ended.
pub open spec fn copies_tile(ops: Seq<HwOp>, from: nat, to: nat) -> bool
    decreases ops.len(),
{
    if ops.len() == 0 {
        from == to
    } else {
        match ops[0] {
            HwOp::CopyIn { half, offset, len } => offset == from && copies_tile(
                ops.drop_first(),
                (from + len) as nat,
                to,
            ),
            HwOp::CopyOut { half, offset, len } => offset == from && copies_tile(
                ops.drop_first(),
                (from + len) as nat,
                to,
            ),
            _ => copies_tile(ops.drop_first(), from, to),
        }
    }
}

/// Whether an operation is a copy to or from the caller's buffer.
pub open spec fn is_copy(op: HwOp) -> bool {
    op is CopyIn || op is CopyOut
}

proof fn lemma_tile_concat(a: Seq<HwOp>, b: Seq<HwOp>, from: nat, mid: nat, to: nat)
    requires
        copies_tile(a, from, mid),
        copies_tile(b, mid, to),
    ensures
        copies_tile(a + b, from, to),
    decreases a.len(),
{
    if a.len() == 0 {
        assert(a + b =~= b);
    } else {
        assert((a + b).drop_first() =~= a.drop_first() + b);
        assert((a + b)[0] == a[0]);
        match a[0] {
            HwOp::CopyIn { half, offset, len } => {
                lemma_tile_concat(a.drop_first(), b, (from + len) as nat, mid, to);
            },
            HwOp::CopyOut { half, offset, len } => {
                lemma_tile_concat(a.drop_first(), b, (from + len) as nat, mid, to);
            },
            _ => {
                lemma_tile_concat(a.drop_first(), b, from, mid, to);
            },
        }
    }
}

proof fn lemma_tile_nothing(ops: Seq<HwOp>, at: nat)
    requires
        forall|i: int| 0 <= i < ops.len() ==> !is_copy(#[trigger] ops[i]),
    ensures
        copies_tile(ops, at, at),
    decreases ops.len(),
{
    if ops.len() > 0 {
        assert(!is_copy(ops[0]));
        assert forall|i: int| 0 <= i < ops.drop_first().len() implies !is_copy(
            #[trigger] ops.drop_first()[i],
        ) by {
            assert(ops.drop_first()[i] == ops[i + 1]);
        }
        lemma_tile_nothing(ops.drop_first(), at);
    }
}

proof fn lemma_tile_one(op: HwOp, rest: Seq<HwOp>, from: nat, to: nat)
    requires
        op matches HwOp::CopyIn { half, offset, len } ==> offset == from && from + len == to,
        op matches HwOp::CopyOut { half, offset, len } ==> offset == from && from + len == to,
        is_copy(op),
        forall|i: int| 0 <= i < rest.len() ==> !is_copy(#[trigger] rest[i]),
    ensures
        copies_tile(seq![op] + rest, from, to),
{
    let all = seq![op] + rest;
    assert(all.drop_first() =~= rest);
    lemma_tile_nothing(rest, to);
}

impl StageView {
    /// Offset in the caller's buffer up to which the stage has asked for
    /// copies: the bytes received so far, or the bytes sent so far.
    pub open spec fn progress(self) -> nat {
        match self.direction {
            Direction::In => self.depacketiser.total,
            Direction::Out => self.offset,
        }
    }
}

proof fn lemma_prepare_tiles(stage: StageView, reg: BufferControl)
    requires
        stage.wf(),
    ensures
        copies_tile(stage.prepare(reg).ops, stage.progress(), stage.prepare(reg).stage.progress()),
{
    let v = stage.packetiser;
    let step = stage.prepare(reg);
    if !v.arms(reg) {
        lemma_tile_nothing(step.ops, stage.progress());
    } else {
        let arm = arm_ops(
            0,
            v.next_half,
            OutPacketiser::full_flag(v.next_half, v.next_length()),
            v.next_pid(),
            v.next_last(),
            v.next_length() as u16,
        );
        match stage.direction {
            Direction::In => {
                lemma_tile_nothing(step.ops, stage.progress());
            },
            Direction::Out => {
                if v.next_length() > 0 {
                    lemma_tile_one(
                        HwOp::CopyOut {
                            half: v.next_half,
                            offset: stage.offset as usize,
                            len: v.next_length() as usize,
                        },
                        arm,
                        stage.offset,
                        stage.offset + v.next_length(),
                    );
                } else {
                    assert(step.ops =~= arm);
                    lemma_tile_nothing(step.ops, stage.progress());
                }
            },
        }
    }
}

proof fn lemma_retire_tiles(stage: StageView, reg: BufferControl)
    requires
        stage.wf(),
    ensures
        copies_tile(stage.retire(reg).ops, stage.progress(), stage.retire(reg).stage.progress()),
{
    let d = stage.depacketiser;
    let step = stage.retire(reg);
    if d.retires(reg) && d.taken(reg) > 0 {
        lemma_tile_one(
            HwOp::CopyIn { half: d.next_half, offset: d.total as usize, len: d.taken(reg) as usize },
            Seq::empty(),
            d.total,
            d.total + d.taken(reg),
        );
        assert(step.ops =~= seq![
            HwOp::CopyIn { half: d.next_half, offset: d.total as usize, len: d.taken(reg) as usize },
        ] + Seq::empty());
    } else {
        lemma_tile_nothing(step.ops, stage.progress());
    }
}

proof fn lemma_arm_tiles(stage: StageView, reg: BufferControl)
    requires
        stage.wf(),
    ensures
        copies_tile(stage.arm(reg).ops, stage.progress(), stage.arm(reg).stage.progress()),
{
    reveal(StageView::arm);
    let a = stage.prepare(reg);
    let b = a.stage.prepare(a.reg);
    let tail = seq![
        HwOp::WriteSieStatus { bits: STATUS_CLEAR_ERRORS },
        HwOp::WriteBuffStatus { bits: CONTROL_BUFFERS_DONE },
        HwOp::EnableInterrupts { sources: stage.wait_sources() },
    ];
    lemma_prepare_within(stage, reg);
    lemma_prepare_tiles(stage, reg);
    lemma_prepare_tiles(a.stage, a.reg);
    lemma_tile_nothing(tail, b.stage.progress());
    lemma_tile_concat(a.ops, b.ops, stage.progress(), a.stage.progress(), b.stage.progress());
    lemma_tile_concat(a.ops + b.ops, tail, stage.progress(), b.stage.progress(), b.stage.progress());
}

proof fn lemma_begin_tiles(address: u8, direction: Direction, size: nat, packet_size: nat)
    requires
        packet_size > 0,
        size <= u16::MAX,
    ensures
        copies_tile(
            StageView::begin(address, direction, size, packet_size).ops,
            0,
            StageView::begin(address, direction, size, packet_size).stage.progress(),
        ),
{
    reveal(StageView::begin);
    let s = StageView::initial(direction, size, packet_size);
    let zero = BufferControl::spec_zero();
    let a = s.prepare(zero);
    let b = a.stage.arm(a.reg);
    lemma_prepare_within(s, zero);
    lemma_prepare_tiles(s, zero);
    lemma_arm_tiles(a.stage, a.reg);
    let p = a.stage.progress();
    let q = b.stage.progress();
    lemma_tile_nothing(StageView::setup_ops(s.packets), 0);
    lemma_tile_nothing(StageView::address_ops(address), p);
    lemma_tile_nothing(StageView::start_ops(direction), q);
    lemma_tile_concat(StageView::setup_ops(s.packets), a.ops, 0, 0, p);
    lemma_tile_concat(
        StageView::setup_ops(s.packets) + a.ops,
        StageView::address_ops(address),
        0,
        p,
        p,
    );
    lemma_tile_concat(
        StageView::setup_ops(s.packets) + a.ops + StageView::address_ops(address),
        b.ops,
        0,
        p,
        q,
    );
    lemma_tile_concat(
        StageView::setup_ops(s.packets) + a.ops + StageView::address_ops(address) + b.ops,
        StageView::start_ops(direction),
        0,
        q,
        q,
    );
}

proof fn lemma_stage_resume_tiles(stage: StageView, status: SieStatus, reg: BufferControl)
    requires
        stage.wf(),
    ensures
        copies_tile(
            stage.resume(status, reg).ops,
            stage.progress(),
            stage.resume(status, reg).stage.progress(),
        ),
{
    reveal(StageView::resume);
    let a = stage.retire(reg);
    let b = a.stage.retire(reg);
    let p0 = stage.progress();
    let p1 = a.stage.progress();
    let p2 = b.stage.progress();
    lemma_retire_within(stage, reg);
    lemma_retire_within(a.stage, reg);
    lemma_retire_tiles(stage, reg);
    lemma_retire_tiles(a.stage, reg);
    lemma_tile_nothing(StageView::wake_ops(), p0);
    if status.trans_complete {
        let clear = seq![HwOp::WriteSieStatus { bits: STATUS_CLEAR_ERRORS }];
        lemma_tile_nothing(clear, p1);
        lemma_tile_concat(StageView::wake_ops(), a.ops, p0, p0, p1);
        lemma_tile_concat(StageView::wake_ops() + a.ops, clear, p0, p1, p1);
        lemma_tile_concat(StageView::wake_ops() + a.ops + clear, b.ops, p0, p1, p2);
    } else if status.spec_error() is Some {
    } else {
        let c = b.stage.arm(reg);
        lemma_arm_tiles(b.stage, reg);
        lemma_tile_concat(StageView::wake_ops(), a.ops, p0, p0, p1);
        lemma_tile_concat(StageView::wake_ops() + a.ops, b.ops, p0, p1, p2);
        lemma_tile_concat(StageView::wake_ops() + a.ops + b.ops, c.ops, p0, p2, c.stage.progress());
    }
}

impl ControlView {
    /// Offset in the caller's buffer up to which the transfer has asked for
    /// copies.
    pub open spec fn progress(self) -> nat {
        match self.phase {
            PhaseView::SendSetup => 0,
            PhaseView::Data(stage) => stage.progress(),
            PhaseView::Status(_) => 0,
            PhaseView::Done(_) => 0,
        }
    }
}

/// While a data stage goes on, the copies that each step asks for begin
/// where those of the step before ended, and follow one another without gap
/// or overlap: the caller's buffer is filled, or sent, front to back. The
/// first step of the stage begins at the front of the buffer, and an inbound
/// transfer that completes reports the offset that its copies have reached.
pub proof fn lemma_copies_continue(v: ControlView, status: SieStatus, reg: BufferControl)
    requires
        v.wf(),
    ensures
        ({
            let step = v.resume(status, reg);
            match (v.phase, step.view.phase) {
                (PhaseView::SendSetup, PhaseView::Data(after)) => copies_tile(
                    step.ops,
                    0,
                    after.progress(),
                ),
                (PhaseView::Data(before), PhaseView::Data(after)) => copies_tile(
                    step.ops,
                    before.progress(),
                    after.progress(),
                ),
                (PhaseView::Data(before), PhaseView::Done(Ok(n))) => before.direction
                    == Direction::In ==> copies_tile(step.ops, before.progress(), n as nat),
                _ => true,
            }
        }),
{
    match v.phase {
        PhaseView::SendSetup => {
            if let Some(direction) = v.data {
                lemma_begin_tiles(v.address, direction, v.length as nat, v.packet_size as nat);
            }
        },
        PhaseView::Data(stage) => {
            lemma_stage_resume_tiles(stage, status, reg);
            lemma_stage_resume_within(stage, status, reg);
        },
        _ => {},
    }
}

/// Every copy that a control transfer asks for, in whatever state and on
/// whatever event, lies within the first `wLength` bytes of the caller's
/// buffer, which the transfer has checked to be that long; and the step
/// leaves the transfer well-formed.
pub proof fn lemma_copies_in_bounds(v: ControlView, status: SieStatus, reg: BufferControl)
    requires
        v.wf(),
    ensures
        v.resume(status, reg).view.wf(),
        copies_within(v.resume(status, reg).ops, v.length as nat),
        v.resume(status, reg).outcome matches Some(Ok(n)) ==> n <= v.length,
{
    lemma_begin_within(v.address, Direction::In, 0, v.packet_size as nat);
    match v.phase {
        PhaseView::SendSetup => {
            if let Some(direction) = v.data {
                lemma_begin_within(v.address, direction, v.length as nat, v.packet_size as nat);
            }
        },
        PhaseView::Data(stage) => {
            lemma_stage_resume_within(stage, status, reg);
        },
        PhaseView::Status(stage) => {
            lemma_stage_resume_within(stage, status, reg);
        },
        PhaseView::Done(_) => {},
    }
}

/// A request for no bytes, or one for which the caller names no data stage,
/// goes from its SETUP packet straight to the status stage, which is an
/// inbound stage of no bytes, and ends with a count of zero when that stage
/// completes.
pub proof fn lemma_no_data_stage(
    address: u8,
    packet_size: u8,
    setup: SetupPacket,
    data_phase: DataPhase,
    status: SieStatus,
    reg: BufferControl,
    later: SieStatus,
    later_reg: BufferControl,
)
    requires
        packet_size > 0,
        setup.wLength == 0 || data_phase == DataPhase::NoData,
        status.trans_complete,
        later.trans_complete,
    ensures
        ({
            let start = ControlView::initial(address, packet_size, setup, data_phase);
            let first = start.resume(status, reg);
            let second = first.view.resume(later, later_reg);
            &&& first.view.state() == ControlState::StatusStage
            &&& first.outcome is None
            &&& first.ops == StageView::begin(address, Direction::In, 0, packet_size as nat).ops
            &&& second.outcome == Some(Ok::<usize, UsbError>(0))
            &&& second.view.state() == ControlState::Done
        }),
{
}

/// A buffer half once a peripheral whose device answers as asked has served
/// it: a half that was handed over comes back full, with the length that
/// was asked for; any other half is left as it is.
pub open spec fn served_half(h: BufferHalf) -> BufferHalf {
    if h.available {
        BufferHalf { full: true, available: false, ..h }
    } else {
        h
    }
}

/// The buffer-control word once such a peripheral has served both halves.
pub open spec fn served(reg: BufferControl) -> BufferControl {
    BufferControl { half_0: served_half(reg.half_0), half_1: served_half(reg.half_1) }
}

/// The status that such a peripheral reports with it: no error, and the
/// transaction complete if a half that it served was marked last.
pub open spec fn answered(reg: BufferControl) -> SieStatus {
    SieStatus {
        speed: 2,
        trans_complete: (reg.half_0.available && reg.half_0.last) || (reg.half_1.available
            && reg.half_1.last),
        data_seq_error: false,
        stall_rec: false,
        nak_rec: false,
        rx_overflow: false,
        rx_timeout: false,
        bit_stuff_error: false,
        crc_error: false,
    }
}

/// Whether no operation among `ops` arms a buffer of no bytes.
pub open spec fn no_empty_buffer(ops: Seq<HwOp>) -> bool {
    forall|i: int|
        0 <= i < ops.len() ==> ((#[trigger] ops[i]) matches HwOp::ModifyBuffer { length, .. }
            ==> length > 0)
}

/// What an inbound data stage of `size` bytes looks like between two events,
/// `reg` being the buffer-control word as the last step left it: the half
/// that is due to be retired is with the peripheral; if the other is too, it
/// holds the packet after it, and is the last exactly if nothing is left to
/// arm; the bytes taken, those asked for in the halves, and those still to
/// arm add up to `size`.
pub open spec fn in_flight(stage: StageView, reg: BufferControl, size: nat) -> bool {
    let due = stage.depacketiser.next_half;
    let first = reg.half(due);
    let second = reg.half(
        if due == 0 {
            1u8
        } else {
            0u8
        },
    );
    &&& stage.wf()
    &&& stage.direction == Direction::In
    &&& stage.depacketiser.size == size
    &&& !stage.packetiser.zero_pending
    &&& first.available
    &&& first.length >= 1
    &&& if second.available {
        &&& stage.packetiser.next_half == due
        &&& !first.last
        &&& second.length >= 1
        &&& second.last == (stage.packetiser.remain == 0)
        &&& stage.depacketiser.total + first.length + second.length + stage.packetiser.remain
            == size
    } else {
        &&& first.last
        &&& stage.packetiser.remain == 0
        &&& stage.depacketiser.total + first.length == size
    }
}

/// The bytes that an inbound data stage has received when it completes, if
/// the peripheral serves every buffer as asked: the stage is resumed on one
/// event after the other, each showing the halves of the last step served,
/// until the transaction is complete. `None` if `fuel` events do not suffice.
pub open spec fn served_total(stage: StageView, reg: BufferControl, fuel: nat) -> Option<nat>
    decreases fuel,
{
    let step = stage.resume(answered(reg), served(reg));
    if answered(reg).trans_complete {
        Some(step.stage.depacketiser.total)
    } else if fuel == 0 {
        None
    } else {
        served_total(step.stage, step.reg, (fuel - 1) as nat)
    }
}

/// Whether every step of such a run arms only buffers that have room.
pub open spec fn served_without_empty_buffer(stage: StageView, reg: BufferControl, fuel: nat) -> bool
    decreases fuel,
{
    let step = stage.resume(answered(reg), served(reg));
    &&& no_empty_buffer(step.ops)
    &&& (!answered(reg).trans_complete && fuel > 0 ==> served_without_empty_buffer(
        step.stage,
        step.reg,
        (fuel - 1) as nat,
    ))
}

proof fn lemma_served_begin(address: u8, size: nat, packet_size: nat)
    requires
        packet_size > 0,
        0 < size <= u16::MAX,
    ensures
        in_flight(
            StageView::begin(address, Direction::In, size, packet_size).stage,
            StageView::begin(address, Direction::In, size, packet_size).reg,
            size,
        ),
        no_empty_buffer(StageView::begin(address, Direction::In, size, packet_size).ops),
{
    reveal(StageView::begin);
    reveal(StageView::arm);
}

proof fn lemma_served_step(stage: StageView, reg: BufferControl, size: nat)
    requires
        in_flight(stage, reg, size),
    ensures
        ({
            let step = stage.resume(answered(reg), served(reg));
            &&& no_empty_buffer(step.ops)
            &&& answered(reg).trans_complete ==> step.stage.depacketiser.total == size
                && step.stage.packetiser.remain == 0
            &&& !answered(reg).trans_complete ==> in_flight(step.stage, step.reg, size)
                && step.stage.packetiser.remain < stage.packetiser.remain
        }),
{
    reveal(StageView::resume);
    reveal(StageView::arm);
}

proof fn lemma_served_run(stage: StageView, reg: BufferControl, size: nat, fuel: nat)
    requires
        in_flight(stage, reg, size),
        fuel >= stage.packetiser.remain,
    ensures
        served_total(stage, reg, fuel) == Some(size),
        served_without_empty_buffer(stage, reg, fuel),
    decreases fuel,
{
    lemma_served_step(stage, reg, size);
    if !answered(reg).trans_complete {
        let step = stage.resume(answered(reg), served(reg));
        lemma_served_run(step.stage, step.reg, size, (fuel - 1) as nat);
    }
}

/// An inbound data stage whose device sends every packet that is asked for
/// receives exactly the bytes asked for, whatever the size and the packet
/// size: begun and then resumed on each event of a peripheral that serves
/// the buffers as they were armed, it completes with `size` bytes taken, and
/// no buffer of no bytes is ever armed for it.
pub proof fn lemma_inbound_stage_completes(address: u8, size: nat, packet_size: nat)
    requires
        packet_size > 0,
        0 < size <= u16::MAX,
    ensures
        ({
            let begun = StageView::begin(address, Direction::In, size, packet_size);
            &&& no_empty_buffer(begun.ops)
            &&& served_total(begun.stage, begun.reg, size) == Some(size)
            &&& served_without_empty_buffer(begun.stage, begun.reg, size)
        }),
{
    let begun = StageView::begin(address, Direction::In, size, packet_size);
    lemma_served_begin(address, size, packet_size);
    lemma_served_run(begun.stage, begun.reg, size, size);
}

/// The outcome of a control transfer in its data stage, if the peripheral
/// serves every buffer as asked: the transfer is resumed on one event after
/// the other, each showing the halves of the last step served, until it
/// ends. `None` if `fuel` events do not suffice, or if the transfer is not
/// in its data stage.
pub open spec fn served_outcome(v: ControlView, reg: BufferControl, fuel: nat) -> Option<
    Result<usize, UsbError>,
>
    decreases fuel,
{
    match v.phase {
        PhaseView::Data(stage) => {
            let step = v.resume(answered(reg), served(reg));
            match step.outcome {
                Some(r) => Some(r),
                None => if fuel == 0 {
                    None
                } else {
                    served_outcome(
                        step.view,
                        stage.resume(answered(reg), served(reg)).reg,
                        (fuel - 1) as nat,
                    )
                },
            }
        },
        _ => None,
    }
}

proof fn lemma_served_transfer(v: ControlView, stage: StageView, reg: BufferControl, fuel: nat)
    requires
        v.wf(),
        v.phase == PhaseView::Data(stage),
        in_flight(stage, reg, v.length as nat),
        fuel >= stage.packetiser.remain,
    ensures
        served_outcome(v, reg, fuel) == Some(Ok::<usize, UsbError>(v.length as usize)),
    decreases fuel,
{
    lemma_served_step(stage, reg, v.length as nat);
    lemma_stage_resume_within(stage, answered(reg), served(reg));
    if !answered(reg).trans_complete {
        let step = stage.resume(answered(reg), served(reg));
        let next = v.resume(answered(reg), served(reg));
        lemma_served_transfer(next.view, step.stage, step.reg, (fuel - 1) as nat);
    }
}

/// An inbound control transfer whose device sends every packet that is
/// asked for ends with the count of bytes that the request asked for. Once
/// the SETUP packet is through, the data stage begins; resumed on each event
/// of a peripheral that serves the buffers as they were armed, the transfer
/// ends with `Ok(wLength)`, without a status stage of its own, and no
/// buffer of no bytes is armed on the way.
pub proof fn lemma_inbound_transfer_completes(
    address: u8,
    packet_size: u8,
    setup: SetupPacket,
    capacity: usize,
    setup_done: SieStatus,
    reg: BufferControl,
)
    requires
        packet_size > 0,
        setup.wLength > 0,
        capacity >= setup.wLength,
        setup_done.trans_complete,
    ensures
        ({
            let start = ControlView::initial(address, packet_size, setup, DataPhase::In(capacity));
            let first = start.resume(setup_done, reg);
            let begun = StageView::begin(
                address,
                Direction::In,
                setup.wLength as nat,
                packet_size as nat,
            );
            &&& first.outcome is None
            &&& first.view.phase == PhaseView::Data(begun.stage)
            &&& first.ops == begun.ops
            &&& no_empty_buffer(begun.ops)
            &&& served_without_empty_buffer(begun.stage, begun.reg, setup.wLength as nat)
            &&& served_outcome(first.view, begun.reg, setup.wLength as nat) == Some(
                Ok::<usize, UsbError>(setup.wLength as usize),
            )
        }),
{
    let start = ControlView::initial(address, packet_size, setup, DataPhase::In(capacity));
    let first = start.resume(setup_done, reg);
    let begun = StageView::begin(address, Direction::In, setup.wLength as nat, packet_size as nat);
    lemma_inbound_stage_completes(address, setup.wLength as nat, packet_size as nat);
    lemma_served_begin(address, setup.wLength as nat, packet_size as nat);
    lemma_begin_within(address, Direction::In, setup.wLength as nat, packet_size as nat);
    lemma_served_transfer(first.view, begun.stage, begun.reg, setup.wLength as nat);
}

} // verus!
