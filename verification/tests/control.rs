use cotton::usb_host::control::{
    checked_direction, ControlState, ControlTransfer, Rp2040ControlEndpoint, Stage,
};
use cotton::usb_host::host_controller::{DataPhase, UsbError};
use cotton::usb_host::registers::{BufferControl, HwOp, InterruptSet, SieStatus};
use cotton::usb_host::rp2040::Rp2040HostController;
use cotton::usb_host::wire::{Direction, SetupPacket};

const QUIET: SieStatus = SieStatus {
    speed: 2,
    trans_complete: false,
    data_seq_error: false,
    stall_rec: false,
    nak_rec: false,
    rx_overflow: false,
    rx_timeout: false,
    bit_stuff_error: false,
    crc_error: false,
};

#[derive(Clone, Copy, PartialEq, Debug)]
enum Mode {
    Idle,
    Setup,
    In,
    Out,
}

/// The peripheral with a device behind it, as far as the control pipe goes.
struct Simulation {
    reg: BufferControl,
    halves: [[u8; 64]; 2],
    host_buffer: Vec<u8>,
    status: SieStatus,
    buff_status: bool,
    mode: Mode,
    running: bool,
    next_half: u8,
    double_buffered: bool,
    /// What the device answers IN tokens with, front first. Once it has
    /// nothing left it answers NAK.
    to_send: Vec<Vec<u8>>,
    /// What the device got in OUT packets.
    received: Vec<Vec<u8>>,
    /// The device stalls once it has seen this many data packets.
    stall_after: Option<usize>,
    stall_setup: bool,
    data_packets: usize,
    setups: Vec<(u8, SetupPacket)>,
    setup: Option<SetupPacket>,
    address: u8,
    log: Vec<HwOp>,
}

impl Simulation {
    fn new(host_buffer: Vec<u8>) -> Self {
        Simulation {
            reg: BufferControl::zero(),
            halves: [[0; 64]; 2],
            host_buffer,
            status: QUIET,
            buff_status: false,
            mode: Mode::Idle,
            running: false,
            next_half: 0,
            double_buffered: false,
            to_send: vec![],
            received: vec![],
            stall_after: None,
            stall_setup: false,
            data_packets: 0,
            setups: vec![],
            setup: None,
            address: 0,
            log: vec![],
        }
    }

    fn apply(&mut self, op: HwOp) {
        self.log.push(op);
        match op {
            HwOp::WriteEpxControl { buffer_address, double_buffered, .. } => {
                assert_eq!(buffer_address, 0x180);
                self.double_buffered = double_buffered;
            }
            HwOp::WriteBufferControl { pipe, value } => {
                assert_eq!(pipe, 0);
                self.reg = value;
                self.next_half = 0;
            }
            HwOp::ModifyBuffer { pipe, half, full, pid, last, length } => {
                assert_eq!(pipe, 0);
                let mut h = self.reg.half(half);
                assert!(!h.available, "a buffer is changed while the peripheral has it");
                if let Some(f) = full {
                    h.full = f;
                }
                h.pid = pid;
                h.last = last;
                h.length = length;
                self.reg = self.reg.with_half(half, h);
            }
            HwOp::ArmBuffer { pipe, half } => {
                assert_eq!(pipe, 0);
                let mut h = self.reg.half(half);
                h.available = true;
                self.reg = self.reg.with_half(half, h);
            }
            HwOp::WriteSetupPacket { setup } => self.setup = Some(setup),
            HwOp::CopyOut { half, offset, len } => {
                self.halves[half as usize][..len]
                    .copy_from_slice(&self.host_buffer[offset..offset + len]);
            }
            HwOp::CopyIn { half, offset, len } => {
                self.host_buffer[offset..offset + len]
                    .copy_from_slice(&self.halves[half as usize][..len]);
            }
            HwOp::WriteSieStatus { bits } => {
                if bits & (1 << 18) != 0 {
                    self.status.trans_complete = false;
                }
                if bits & (1 << 24) != 0 {
                    self.status.crc_error = false;
                }
                if bits & (1 << 25) != 0 {
                    self.status.bit_stuff_error = false;
                }
                if bits & (1 << 26) != 0 {
                    self.status.rx_overflow = false;
                }
                if bits & (1 << 27) != 0 {
                    self.status.rx_timeout = false;
                }
                if bits & (1 << 28) != 0 {
                    self.status.nak_rec = false;
                }
                if bits & (1 << 29) != 0 {
                    self.status.stall_rec = false;
                }
                if bits & (1 << 31) != 0 {
                    self.status.data_seq_error = false;
                }
            }
            HwOp::WriteBuffStatus { bits } => {
                if bits & 3 != 0 {
                    self.buff_status = false;
                }
            }
            HwOp::WriteAddrEndp { address, endpoint } => {
                assert_eq!(endpoint, 0);
                self.address = address;
            }
            HwOp::SieCtrlSendSetup => self.mode = Mode::Setup,
            HwOp::SieCtrlDirection { receive_data, send_data } => {
                assert!(receive_data != send_data);
                self.mode = if receive_data { Mode::In } else { Mode::Out };
            }
            HwOp::SieCtrlStartTrans => self.running = true,
            HwOp::EnableInterrupts { .. } | HwOp::DisableInterrupts { .. } | HwOp::Delay { .. } => {}
            other => panic!("unexpected {:?}", other),
        }
    }

    fn apply_all(&mut self, ops: &[HwOp]) {
        for op in ops {
            self.apply(*op);
        }
    }

    /// Lets the peripheral go on until it has to wait for the driver.
    fn run(&mut self) {
        if !self.running {
            return;
        }
        match self.mode {
            Mode::Idle => {}
            Mode::Setup => {
                self.setups.push((self.address, self.setup.expect("no SETUP packet written")));
                if self.stall_setup {
                    self.status.stall_rec = true;
                } else {
                    self.status.trans_complete = true;
                }
                self.running = false;
            }
            Mode::In => loop {
                let mut h = self.reg.half(self.next_half);
                if !h.available {
                    break;
                }
                if self.stall_after == Some(self.data_packets) {
                    self.status.stall_rec = true;
                    self.running = false;
                    break;
                }
                if self.to_send.is_empty() {
                    self.status.nak_rec = true;
                    break;
                }
                let packet = self.to_send.remove(0);
                assert!(packet.len() <= h.length as usize, "the device sends more than was armed");
                let short = packet.len() < h.length as usize;
                self.halves[self.next_half as usize][..packet.len()].copy_from_slice(&packet);
                h.full = true;
                h.available = false;
                h.length = packet.len() as u16;
                self.reg = self.reg.with_half(self.next_half, h);
                self.next_half ^= 1;
                self.data_packets += 1;
                self.buff_status = true;
                if h.last || short {
                    self.status.trans_complete = true;
                    self.running = false;
                    break;
                }
                if !self.double_buffered {
                    break;
                }
            },
            Mode::Out => loop {
                let mut h = self.reg.half(self.next_half);
                if !h.available {
                    break;
                }
                if self.stall_after == Some(self.data_packets) {
                    self.status.stall_rec = true;
                    self.running = false;
                    break;
                }
                self.received.push(self.halves[self.next_half as usize][..h.length as usize].to_vec());
                h.full = false;
                h.available = false;
                self.reg = self.reg.with_half(self.next_half, h);
                self.next_half ^= 1;
                self.data_packets += 1;
                self.buff_status = true;
                if h.last {
                    self.status.trans_complete = true;
                    self.running = false;
                    break;
                }
                if !self.double_buffered {
                    break;
                }
            },
        }
    }

    fn intr(&self) -> u32 {
        let mut intr = 0;
        if self.status.trans_complete {
            intr |= 0x8;
        }
        if self.buff_status {
            intr |= 0x10;
        }
        if self.status.rx_timeout {
            intr |= 0x40;
        }
        if self.status.stall_rec {
            intr |= 0x400;
        }
        intr
    }

    /// The buffers armed since the log was last cleared: half, length, last
    /// flag, data toggle.
    fn armed(&self) -> Vec<(u8, u16, bool, bool)> {
        let mut out = vec![];
        for op in &self.log {
            if let HwOp::ModifyBuffer { half, pid, last, length, .. } = *op {
                out.push((half, length, last, pid));
            }
        }
        out
    }

    fn copies(&self) -> usize {
        self.log
            .iter()
            .filter(|op| matches!(op, HwOp::CopyIn { .. } | HwOp::CopyOut { .. }))
            .count()
    }
}

/// Runs a transfer to its end: waits for the control pipe as the driver
/// would, and resumes the transfer on each event.
fn drive(sim: &mut Simulation, transfer: &mut ControlTransfer) -> (Result<usize, UsbError>, Vec<ControlState>) {
    let endpoint = Rp2040ControlEndpoint::new();
    let mut states = vec![transfer.state()];
    for _ in 0..10_000 {
        sim.run();
        let mut ops = vec![];
        let ready = endpoint.poll(sim.intr(), sim.status, &mut ops);
        sim.apply_all(&ops);
        let status = match ready {
            Some(status) => status,
            None => panic!("the transfer hangs in {:?}", transfer.state()),
        };
        let mut ops = vec![];
        let outcome = transfer.resume(status, sim.reg, &mut ops);
        sim.apply_all(&ops);
        if states.last() != Some(&transfer.state()) {
            states.push(transfer.state());
        }
        if let Some(outcome) = outcome {
            return (outcome, states);
        }
    }
    panic!("the transfer does not end");
}

fn start(
    sim: &mut Simulation,
    address: u8,
    packet_size: u8,
    setup: SetupPacket,
    data_phase: DataPhase,
) -> ControlTransfer {
    let mut ops = vec![];
    let transfer = ControlTransfer::new(address, packet_size, setup, data_phase, &mut ops)
        .expect("the transfer is refused");
    sim.apply_all(&ops);
    transfer
}

fn get_descriptor(length: u16) -> SetupPacket {
    SetupPacket { bmRequestType: 0x80, bRequest: 6, wValue: 0x0100, wIndex: 0, wLength: length }
}

fn set_configuration() -> SetupPacket {
    SetupPacket { bmRequestType: 0, bRequest: 9, wValue: 1, wIndex: 0, wLength: 0 }
}

fn bytes(n: usize) -> Vec<u8> {
    (0..n).map(|i| (i * 7 + 3) as u8).collect()
}

#[test]
fn setup_packet_is_sent_by_these_operations() {
    let setup = get_descriptor(18);
    let mut ops = vec![];
    let transfer = ControlTransfer::new(5, 8, setup, DataPhase::In(18), &mut ops).unwrap();
    assert_eq!(transfer.state(), ControlState::SendSetup);
    assert_eq!(
        ops,
        vec![
            HwOp::WriteEpxControl {
                buffer_address: 0x180,
                double_buffered: false,
                interrupt_per_buff: false,
                enable: false,
            },
            HwOp::WriteBufferControl { pipe: 0, value: BufferControl::zero() },
            HwOp::WriteSetupPacket { setup },
            HwOp::WriteSieStatus { bits: 0xFFFF_FFFF },
            HwOp::WriteAddrEndp { address: 5, endpoint: 0 },
            HwOp::SieCtrlSendSetup,
            HwOp::Delay { cycles: 12 },
            HwOp::SieCtrlStartTrans,
        ]
    );
    let mut again = vec![HwOp::SieCtrlStartTrans];
    ControlTransfer::send_setup(5, setup, &mut again);
    assert_eq!(again[0], HwOp::SieCtrlStartTrans);
    assert_eq!(&again[1..], &ops[..]);
}

#[test]
fn transfer_without_data_is_setup_and_one_empty_inbound_stage() {
    let mut sim = Simulation::new(vec![]);
    sim.to_send = vec![vec![]];
    let mut transfer = start(&mut sim, 1, 8, set_configuration(), DataPhase::NoData);
    assert_eq!(sim.log.len(), 8);
    sim.log.clear();
    let (outcome, states) = drive(&mut sim, &mut transfer);
    assert_eq!(outcome, Ok(0));
    assert_eq!(
        states,
        vec![ControlState::SendSetup, ControlState::StatusStage, ControlState::Done]
    );
    assert_eq!(sim.setups, vec![(1, set_configuration())]);
    assert_eq!(sim.mode, Mode::In);
    assert_eq!(sim.copies(), 0);
    assert_eq!(sim.armed(), vec![(0, 0, true, false)]);
    assert_eq!(sim.data_packets, 1);
    assert!(sim.to_send.is_empty());
    assert!(!sim.double_buffered);
}

#[test]
fn status_stage_operations() {
    let mut ops = vec![];
    let mut transfer =
        ControlTransfer::new(9, 64, set_configuration(), DataPhase::NoData, &mut ops).unwrap();
    ops.clear();
    let done = SieStatus { trans_complete: true, ..QUIET };
    assert_eq!(transfer.resume(done, BufferControl::zero(), &mut ops), None);
    assert_eq!(
        ops,
        vec![
            HwOp::WriteEpxControl {
                buffer_address: 0x180,
                double_buffered: false,
                interrupt_per_buff: false,
                enable: true,
            },
            HwOp::WriteBufferControl { pipe: 0, value: BufferControl::zero() },
            HwOp::ModifyBuffer { pipe: 0, half: 0, full: Some(false), pid: false, last: true, length: 0 },
            HwOp::Delay { cycles: 12 },
            HwOp::ArmBuffer { pipe: 0, half: 0 },
            HwOp::WriteSieStatus { bits: 0xFFFF_FFFF },
            HwOp::WriteAddrEndp { address: 9, endpoint: 0 },
            HwOp::WriteSieStatus { bits: 0xFF00_0000 },
            HwOp::WriteBuffStatus { bits: 3 },
            HwOp::EnableInterrupts { sources: InterruptSet::transfer() },
            HwOp::SieCtrlDirection { receive_data: true, send_data: false },
            HwOp::Delay { cycles: 12 },
            HwOp::SieCtrlStartTrans,
        ]
    );
    ops.clear();
    let mut reg = BufferControl::zero();
    reg.half_0.full = true;
    reg.half_0.last = true;
    assert_eq!(transfer.resume(done, reg, &mut ops), Some(Ok(0)));
    assert_eq!(
        ops,
        vec![
            HwOp::WriteBuffStatus { bits: 3 },
            HwOp::DisableInterrupts { sources: InterruptSet::transfer() },
            HwOp::WriteSieStatus { bits: 0xFF00_0000 },
        ]
    );
    assert_eq!(transfer.state(), ControlState::Done);
    // a transfer that has ended reports its outcome again and asks for nothing
    ops.clear();
    assert_eq!(transfer.resume(QUIET, reg, &mut ops), Some(Ok(0)));
    assert!(ops.is_empty());
}

#[test]
fn inbound_transfer_of_whole_packets_needs_no_empty_packet() {
    let data = bytes(512);
    let mut sim = Simulation::new(vec![0; 512]);
    sim.to_send = data.chunks(64).map(|c| c.to_vec()).collect();
    let mut transfer = start(&mut sim, 3, 64, get_descriptor(512), DataPhase::In(512));
    sim.log.clear();
    let (outcome, states) = drive(&mut sim, &mut transfer);
    assert_eq!(outcome, Ok(512));
    assert_eq!(states, vec![ControlState::SendSetup, ControlState::DataStage, ControlState::Done]);
    assert_eq!(sim.host_buffer, data);
    assert_eq!(sim.data_packets, 8);
    assert!(sim.to_send.is_empty());
    assert!(!sim.status.nak_rec);
    let armed = sim.armed();
    assert_eq!(armed.len(), 8);
    for (i, (half, length, last, pid)) in armed.iter().enumerate() {
        assert_eq!(*half, (i % 2) as u8);
        assert_eq!(*length, 64);
        assert_eq!(*last, i == 7);
        assert_eq!(*pid, i % 2 == 1);
    }
    assert!(sim.double_buffered);
    assert_eq!(sim.copies(), 8);
}

#[test]
fn inbound_transfer_ends_early_on_a_short_packet() {
    let data = bytes(138);
    let mut sim = Simulation::new(vec![0xee; 512]);
    sim.to_send = data.chunks(64).map(|c| c.to_vec()).collect();
    let mut transfer = start(&mut sim, 3, 64, get_descriptor(512), DataPhase::In(512));
    let (outcome, _) = drive(&mut sim, &mut transfer);
    assert_eq!(outcome, Ok(138));
    assert_eq!(&sim.host_buffer[..138], &data[..]);
    assert!(sim.host_buffer[138..].iter().all(|b| *b == 0xee));
}

#[test]
fn inbound_transfer_ends_early_on_an_empty_packet() {
    let data = bytes(128);
    let mut sim = Simulation::new(vec![0xee; 512]);
    sim.to_send = vec![data[..64].to_vec(), data[64..].to_vec(), vec![]];
    let mut transfer = start(&mut sim, 3, 64, get_descriptor(512), DataPhase::In(512));
    sim.log.clear();
    let (outcome, _) = drive(&mut sim, &mut transfer);
    assert_eq!(outcome, Ok(128));
    assert_eq!(&sim.host_buffer[..128], &data[..]);
    assert!(sim.host_buffer[128..].iter().all(|b| *b == 0xee));
    assert_eq!(sim.copies(), 2);
    assert_eq!(sim.data_packets, 3);
}

#[test]
fn inbound_transfer_of_exactly_one_packet() {
    let data = bytes(64);
    let mut sim = Simulation::new(vec![0; 64]);
    sim.to_send = vec![data.clone()];
    let mut transfer = start(&mut sim, 3, 64, get_descriptor(64), DataPhase::In(64));
    sim.log.clear();
    let (outcome, _) = drive(&mut sim, &mut transfer);
    assert_eq!(outcome, Ok(64));
    assert_eq!(sim.host_buffer, data);
    assert_eq!(sim.armed(), vec![(0, 64, true, false)]);
    assert!(sim.double_buffered);
}

#[test]
fn inbound_transfer_of_one_short_packet_is_single_buffered() {
    let data = bytes(18);
    let mut sim = Simulation::new(vec![0; 18]);
    sim.to_send = vec![data.clone()];
    let mut transfer = start(&mut sim, 0, 64, get_descriptor(18), DataPhase::In(18));
    sim.log.clear();
    let (outcome, _) = drive(&mut sim, &mut transfer);
    assert_eq!(outcome, Ok(18));
    assert_eq!(sim.host_buffer, data);
    assert!(!sim.double_buffered);
    assert_eq!(sim.armed(), vec![(0, 18, true, false)]);
    assert!(sim
        .log
        .iter()
        .all(|op| !matches!(op, HwOp::EnableInterrupts { sources } if sources.buff_status)));
}

#[test]
fn inbound_transfer_into_a_larger_buffer_stays_within_the_length_asked_for() {
    let data = bytes(18);
    let mut sim = Simulation::new(vec![0xaa; 100]);
    sim.to_send = data.chunks(8).map(|c| c.to_vec()).collect();
    let mut transfer = start(&mut sim, 0, 8, get_descriptor(18), DataPhase::In(100));
    let (outcome, _) = drive(&mut sim, &mut transfer);
    assert_eq!(outcome, Ok(18));
    assert_eq!(&sim.host_buffer[..18], &data[..]);
    assert!(sim.host_buffer[18..].iter().all(|b| *b == 0xaa));
    for op in &sim.log {
        if let HwOp::CopyIn { half, offset, len } = *op {
            assert!(half <= 1 && offset + len <= 18);
        }
    }
}

fn set_report(length: u16) -> SetupPacket {
    SetupPacket { bmRequestType: 0x21, bRequest: 9, wValue: 0x0200, wIndex: 0, wLength: length }
}

#[test]
fn outbound_transfer_sends_the_buffer_and_then_takes_the_status() {
    let data = bytes(130);
    let mut sim = Simulation::new(data.clone());
    sim.to_send = vec![vec![]];
    let mut transfer = start(&mut sim, 4, 64, set_report(130), DataPhase::Out(130));
    let (outcome, states) = drive(&mut sim, &mut transfer);
    assert_eq!(outcome, Ok(130));
    assert_eq!(
        states,
        vec![
            ControlState::SendSetup,
            ControlState::DataStage,
            ControlState::StatusStage,
            ControlState::Done
        ]
    );
    assert_eq!(sim.received, vec![data[..64].to_vec(), data[64..128].to_vec(), data[128..].to_vec()]);
    assert_eq!(sim.mode, Mode::In);
    assert!(sim.to_send.is_empty());
    assert_eq!(sim.host_buffer, data);
}

#[test]
fn outbound_transfer_of_whole_packets() {
    let data = bytes(128);
    let mut sim = Simulation::new(data.clone());
    sim.to_send = vec![vec![]];
    let mut transfer = start(&mut sim, 4, 64, set_report(128), DataPhase::Out(128));
    sim.log.clear();
    let (outcome, _) = drive(&mut sim, &mut transfer);
    assert_eq!(outcome, Ok(128));
    assert_eq!(&sim.received[..2], &[data[..64].to_vec(), data[64..].to_vec()]);
    // the packetiser's packets: two full ones, the second marked last, then
    // the empty one
    let armed: Vec<_> = sim.armed().into_iter().take(3).collect();
    assert_eq!(armed, vec![(0, 64, false, false), (1, 64, true, true), (0, 0, true, false)]);
}

#[test]
fn request_for_no_bytes_has_no_data_stage_whatever_the_caller_names() {
    for phase in [DataPhase::In(64), DataPhase::Out(64), DataPhase::In(0), DataPhase::NoData] {
        let mut sim = Simulation::new(vec![0x55; 64]);
        sim.to_send = vec![vec![]];
        let mut transfer = start(&mut sim, 1, 8, set_configuration(), phase);
        sim.log.clear();
        let (outcome, states) = drive(&mut sim, &mut transfer);
        assert_eq!(outcome, Ok(0));
        assert_eq!(
            states,
            vec![ControlState::SendSetup, ControlState::StatusStage, ControlState::Done]
        );
        assert_eq!(sim.copies(), 0);
        assert!(sim.received.is_empty());
        assert_eq!(sim.host_buffer, vec![0x55; 64]);
    }
}

#[test]
fn request_with_a_length_but_no_data_phase_goes_to_the_status_stage() {
    let mut sim = Simulation::new(vec![]);
    sim.to_send = vec![vec![]];
    let mut transfer = start(&mut sim, 1, 8, get_descriptor(18), DataPhase::NoData);
    let (outcome, states) = drive(&mut sim, &mut transfer);
    assert_eq!(outcome, Ok(0));
    assert_eq!(
        states,
        vec![ControlState::SendSetup, ControlState::StatusStage, ControlState::Done]
    );
}

#[test]
fn stall_in_the_middle_ends_the_transfer_and_the_pipe_is_free_again() {
    let mut host = Rp2040HostController::new();
    let mut sim = Simulation::new(vec![0; 512]);
    sim.to_send = bytes(512).chunks(64).map(|c| c.to_vec()).collect();
    sim.stall_after = Some(3);
    let mut ops = vec![];
    let mut transfer = host
        .control_transfer(3, 64, get_descriptor(512), DataPhase::In(512), &mut ops)
        .expect("the control pipe is busy")
        .expect("the transfer is refused");
    sim.apply_all(&ops);
    // while the transfer is in flight no other can start
    let mut other = vec![];
    assert!(host
        .control_transfer(4, 64, set_configuration(), DataPhase::NoData, &mut other)
        .is_none());
    assert!(other.is_empty());
    let (outcome, states) = drive(&mut sim, &mut transfer);
    assert_eq!(outcome, Err(UsbError::Stall));
    assert_eq!(states, vec![ControlState::SendSetup, ControlState::DataStage, ControlState::Done]);
    assert_eq!(sim.data_packets, 3);
    // still held until the caller lets go of it
    assert!(host
        .control_transfer(4, 64, set_configuration(), DataPhase::NoData, &mut other)
        .is_none());
    host.finish(transfer);
    let next = host.control_transfer(4, 64, set_configuration(), DataPhase::NoData, &mut other);
    assert!(matches!(next, Some(Ok(_))));
    assert_eq!(other.len(), 8);
}

#[test]
fn transfer_given_up_half_way_frees_the_pipe() {
    let mut host = Rp2040HostController::new();
    let mut ops = vec![];
    let transfer = host
        .control_transfer(3, 64, get_descriptor(512), DataPhase::In(512), &mut ops)
        .unwrap()
        .unwrap();
    assert_eq!(transfer.state(), ControlState::SendSetup);
    host.finish(transfer);
    assert!(matches!(
        host.control_transfer(3, 64, get_descriptor(512), DataPhase::In(512), &mut ops),
        Some(Ok(_))
    ));
}

#[test]
fn stall_of_the_setup_packet() {
    let mut sim = Simulation::new(vec![]);
    sim.stall_setup = true;
    let mut transfer = start(&mut sim, 1, 8, set_configuration(), DataPhase::NoData);
    sim.log.clear();
    let (outcome, states) = drive(&mut sim, &mut transfer);
    assert_eq!(outcome, Err(UsbError::Stall));
    assert_eq!(states, vec![ControlState::SendSetup, ControlState::Done]);
    // nothing but the look at the control pipe touched the peripheral
    assert_eq!(sim.log, vec![HwOp::WriteSieStatus { bits: 0xFF0C_0000 }]);
}

#[test]
fn data_stage_is_settled_by_length_and_buffer() {
    assert_eq!(checked_direction(18, DataPhase::In(18)), Ok(Some(Direction::In)));
    assert_eq!(checked_direction(18, DataPhase::In(1000)), Ok(Some(Direction::In)));
    assert_eq!(checked_direction(18, DataPhase::Out(18)), Ok(Some(Direction::Out)));
    assert_eq!(checked_direction(18, DataPhase::In(17)), Err(UsbError::BufferTooSmall));
    assert_eq!(checked_direction(18, DataPhase::Out(0)), Err(UsbError::BufferTooSmall));
    assert_eq!(checked_direction(65535, DataPhase::In(65534)), Err(UsbError::BufferTooSmall));
    assert_eq!(checked_direction(0, DataPhase::In(5)), Ok(None));
    assert_eq!(checked_direction(0, DataPhase::Out(0)), Ok(None));
    assert_eq!(checked_direction(0, DataPhase::NoData), Ok(None));
    assert_eq!(checked_direction(18, DataPhase::NoData), Ok(None));
}

#[test]
fn buffer_too_small_is_found_before_anything_is_touched() {
    let mut ops = vec![];
    let r = ControlTransfer::new(1, 8, get_descriptor(18), DataPhase::In(17), &mut ops);
    assert!(matches!(r, Err(UsbError::BufferTooSmall)));
    let r = ControlTransfer::new(1, 8, set_report(18), DataPhase::Out(0), &mut ops);
    assert!(matches!(r, Err(UsbError::BufferTooSmall)));
    assert!(ops.is_empty());
    assert!(ControlTransfer::new(1, 8, get_descriptor(18), DataPhase::In(18), &mut ops).is_ok());
    ops.clear();
    let mut host = Rp2040HostController::new();
    let r = host.control_transfer(1, 8, get_descriptor(18), DataPhase::In(17), &mut ops);
    assert!(matches!(r, Some(Err(UsbError::BufferTooSmall))));
    assert!(ops.is_empty());
    // the refusal did not take the control pipe
    let r = host.control_transfer(1, 8, get_descriptor(18), DataPhase::In(18), &mut ops);
    assert!(matches!(r, Some(Ok(_))));
}

fn flags(bits: u8) -> SieStatus {
    SieStatus {
        data_seq_error: bits & 0x20 != 0,
        stall_rec: bits & 0x10 != 0,
        rx_overflow: bits & 0x08 != 0,
        rx_timeout: bits & 0x04 != 0,
        bit_stuff_error: bits & 0x02 != 0,
        crc_error: bits & 0x01 != 0,
        ..QUIET
    }
}

#[test]
fn error_flags_are_read_in_a_fixed_order() {
    assert_eq!(flags(0x3f).error(), Some(UsbError::DataSeqError));
    assert_eq!(flags(0x1f).error(), Some(UsbError::Stall));
    assert_eq!(flags(0x0f).error(), Some(UsbError::Overflow));
    assert_eq!(flags(0x07).error(), Some(UsbError::Timeout));
    assert_eq!(flags(0x03).error(), Some(UsbError::BitStuffError));
    assert_eq!(flags(0x01).error(), Some(UsbError::CrcError));
    assert_eq!(flags(0x00).error(), None);
    assert_eq!(flags(0x20).error(), Some(UsbError::DataSeqError));
    assert_eq!(flags(0x10).error(), Some(UsbError::Stall));
    assert_eq!(flags(0x08).error(), Some(UsbError::Overflow));
    assert_eq!(flags(0x04).error(), Some(UsbError::Timeout));
    assert_eq!(flags(0x02).error(), Some(UsbError::BitStuffError));
    assert_eq!(flags(0x21).error(), Some(UsbError::DataSeqError));
    assert_eq!(flags(0x05).error(), Some(UsbError::Timeout));
    let nak = SieStatus { nak_rec: true, ..QUIET };
    assert_eq!(nak.error(), None);
}

#[test]
fn each_error_ends_a_transfer_in_each_phase() {
    let errors = [
        (0x20, UsbError::DataSeqError),
        (0x10, UsbError::Stall),
        (0x08, UsbError::Overflow),
        (0x04, UsbError::Timeout),
        (0x02, UsbError::BitStuffError),
        (0x01, UsbError::CrcError),
    ];
    let done = SieStatus { trans_complete: true, ..QUIET };
    for (bits, error) in errors {
        // while the SETUP packet is on its way
        let mut ops = vec![];
        let mut t = ControlTransfer::new(1, 8, get_descriptor(18), DataPhase::In(18), &mut ops).unwrap();
        assert_eq!(t.resume(flags(bits), BufferControl::zero(), &mut ops), Some(Err(error)));
        assert_eq!(t.state(), ControlState::Done);
        // in the data stage
        let mut t = ControlTransfer::new(1, 8, get_descriptor(18), DataPhase::In(18), &mut ops).unwrap();
        assert_eq!(t.resume(done, BufferControl::zero(), &mut ops), None);
        assert_eq!(t.state(), ControlState::DataStage);
        ops.clear();
        assert_eq!(t.resume(flags(bits), BufferControl::zero(), &mut ops), Some(Err(error)));
        assert_eq!(
            ops,
            vec![
                HwOp::WriteBuffStatus { bits: 3 },
                HwOp::DisableInterrupts { sources: InterruptSet::transfer() },
            ]
        );
        // in the status stage
        let mut t = ControlTransfer::new(1, 8, set_configuration(), DataPhase::NoData, &mut ops).unwrap();
        assert_eq!(t.resume(done, BufferControl::zero(), &mut ops), None);
        assert_eq!(t.state(), ControlState::StatusStage);
        assert_eq!(t.resume(flags(bits), BufferControl::zero(), &mut ops), Some(Err(error)));
        assert_eq!(t.state(), ControlState::Done);
        assert_eq!(t.resume(QUIET, BufferControl::zero(), &mut ops), Some(Err(error)));
    }
}

#[test]
fn completion_comes_before_any_error() {
    let mut ops = vec![];
    let mut t = ControlTransfer::new(1, 8, set_configuration(), DataPhase::NoData, &mut ops).unwrap();
    let both = SieStatus { trans_complete: true, ..flags(0x3f) };
    assert_eq!(t.resume(both, BufferControl::zero(), &mut ops), None);
    assert_eq!(t.state(), ControlState::StatusStage);
    assert_eq!(t.resume(both, BufferControl::zero(), &mut ops), Some(Ok(0)));
}

#[test]
fn nak_is_no_failure_and_the_wait_goes_on() {
    let nak = SieStatus { nak_rec: true, ..QUIET };
    let mut ops = vec![];
    let mut t = ControlTransfer::new(1, 8, get_descriptor(18), DataPhase::In(18), &mut ops).unwrap();
    ops.clear();
    assert_eq!(t.resume(nak, BufferControl::zero(), &mut ops), None);
    assert_eq!(t.state(), ControlState::SendSetup);
    assert!(ops.is_empty());
    let done = SieStatus { trans_complete: true, ..QUIET };
    assert_eq!(t.resume(done, BufferControl::zero(), &mut ops), None);
    assert_eq!(t.resume(nak, BufferControl::zero(), &mut ops), None);
    assert_eq!(t.state(), ControlState::DataStage);
}

#[test]
fn look_at_the_control_pipe() {
    let endpoint = Rp2040ControlEndpoint::new();
    let status = SieStatus { trans_complete: true, ..QUIET };
    for intr in [0x8u32, 0x10, 0x40, 0x400, 0x458, 0xffff_ffff, 0x409] {
        let mut ops = vec![];
        assert_eq!(endpoint.poll(intr, status, &mut ops), Some(status));
        assert_eq!(ops, vec![HwOp::WriteSieStatus { bits: 0xFF0C_0000 }]);
    }
    for intr in [0u32, 0x1, 0x2, 0x4, 0x20, 0x80, 0x100, 0x200, 0x800, !0x458] {
        let mut ops = vec![];
        assert_eq!(endpoint.poll(intr, status, &mut ops), None);
        let sources = InterruptSet {
            stall: true,
            error_rx_timeout: true,
            trans_complete: true,
            ..InterruptSet::none()
        };
        assert_eq!(
            ops,
            vec![
                HwOp::WriteSieStatus { bits: 0xFF0C_0000 },
                HwOp::EnableInterrupts { sources },
            ]
        );
    }
}

#[test]
fn stage_with_many_packets_waits_for_buffers_too() {
    let mut ops = vec![];
    let stage = Stage::begin(2, 64, Direction::Out, 200, &mut ops);
    assert_eq!(stage.total(), 0);
    assert_eq!(
        ops[0],
        HwOp::WriteEpxControl {
            buffer_address: 0x180,
            double_buffered: true,
            interrupt_per_buff: true,
            enable: true,
        }
    );
    let sources = InterruptSet { buff_status: true, ..InterruptSet::transfer() };
    assert!(ops.contains(&HwOp::EnableInterrupts { sources }));
    assert!(ops.contains(&HwOp::SieCtrlDirection { receive_data: false, send_data: true }));
    // two full packets fit the two halves: 127 bytes are two packets
    let mut ops = vec![];
    Stage::begin(2, 64, Direction::Out, 127, &mut ops);
    assert!(ops.contains(&HwOp::EnableInterrupts { sources: InterruptSet::transfer() }));
    let mut ops = vec![];
    Stage::begin(2, 64, Direction::Out, 128, &mut ops);
    assert!(ops.contains(&HwOp::EnableInterrupts { sources }));
}
