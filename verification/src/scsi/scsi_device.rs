//! SCSI commands, their replies, and a device that exchanges them over a
//! transport.

use vstd::prelude::*;
use vstd::slice::slice_subrange;
use crate::bytes::field;
use crate::scsi::big_endian::{
    be_bytes,
    be_value,
    u16_to_be,
    u32_from_be,
    u32_to_be,
    u64_from_be,
    u64_to_be,
};
use crate::scsi::scsi_transport::{DataPhase, DataView, Error, ScsiError, ScsiTransport};

verus! {

/// READ (10): read `count` blocks from block `lba` on.
#[derive(Clone, Copy, Debug)]
pub struct Read10 {
    operation_code: u8,
    flags: u8,
    lba_be: [u8; 4],
    group: u8,
    transfer_length_be: [u8; 2],
    control: u8,
}

impl View for Read10 {
    type V = Seq<u8>;

    /// The command as it goes over the wire.
    closed spec fn view(&self) -> Seq<u8> {
        seq![self.operation_code, self.flags]
            + self.lba_be@
            + seq![self.group]
            + self.transfer_length_be@
            + seq![self.control]
    }
}

impl Read10 {
    /// The 10 bytes of the command.
    pub open spec fn wire(lba: u32, count: u16) -> Seq<u8> {
        seq![0x28u8, 0u8]
            + be_bytes(lba as nat, 4)
            + seq![0u8]
            + be_bytes(count as nat, 2)
            + seq![0u8]
    }

    /// The command, ready to be sent.
    pub fn new(lba: u32, count: u16) -> (c: Self)
        ensures
            c@ == Self::wire(lba, count),
            c@.len() == 10,
    {
        Self {
            operation_code: 0x28,
            flags: 0,
            lba_be: u32_to_be(lba),
            group: 0,
            transfer_length_be: u16_to_be(count),
            control: 0,
        }
    }

    /// The command as bytes, ready for the transport.
    pub fn bytes(&self) -> (b: [u8; 10])
        ensures
            b@ == self@,
    {
        let b = [
            self.operation_code,
            self.flags,
            self.lba_be[0],
            self.lba_be[1],
            self.lba_be[2],
            self.lba_be[3],
            self.group,
            self.transfer_length_be[0],
            self.transfer_length_be[1],
            self.control,
        ];
        assert(b@ =~= self@);
        b
    }
}

/// READ (16): read `count` blocks from block `lba` on.
#[derive(Clone, Copy, Debug)]
pub struct Read16 {
    operation_code: u8,
    flags: u8,
    lba_be: [u8; 8],
    transfer_length_be: [u8; 4],
    group: u8,
    control: u8,
}

impl View for Read16 {
    type V = Seq<u8>;

    /// The command as it goes over the wire.
    closed spec fn view(&self) -> Seq<u8> {
        seq![self.operation_code, self.flags]
            + self.lba_be@
            + self.transfer_length_be@
            + seq![self.group, self.control]
    }
}

impl Read16 {
    /// The 16 bytes of the command.
    pub open spec fn wire(lba: u64, count: u32) -> Seq<u8> {
        seq![0x88u8, 0u8] + be_bytes(lba as nat, 8) + be_bytes(count as nat, 4) + seq![0u8, 0u8]
    }

    /// The command, ready to be sent.
    pub fn new(lba: u64, count: u32) -> (c: Self)
        ensures
            c@ == Self::wire(lba, count),
            c@.len() == 16,
    {
        Self {
            operation_code: 0x88,
            flags: 0,
            lba_be: u64_to_be(lba),
            transfer_length_be: u32_to_be(count),
            group: 0,
            control: 0,
        }
    }

    /// The command as bytes, ready for the transport.
    pub fn bytes(&self) -> (b: [u8; 16])
        ensures
            b@ == self@,
    {
        let b = [
            self.operation_code,
            self.flags,
            self.lba_be[0],
            self.lba_be[1],
            self.lba_be[2],
            self.lba_be[3],
            self.lba_be[4],
            self.lba_be[5],
            self.lba_be[6],
            self.lba_be[7],
            self.transfer_length_be[0],
            self.transfer_length_be[1],
            self.transfer_length_be[2],
            self.transfer_length_be[3],
            self.group,
            self.control,
        ];
        assert(b@ =~= self@);
        b
    }
}

/// WRITE (10): write `count` blocks from block `lba` on.
#[derive(Clone, Copy, Debug)]
pub struct Write10 {
    operation_code: u8,
    flags: u8,
    lba_be: [u8; 4],
    group: u8,
    transfer_length_be: [u8; 2],
    control: u8,
}

impl View for Write10 {
    type V = Seq<u8>;

    /// The command as it goes over the wire.
    closed spec fn view(&self) -> Seq<u8> {
        seq![self.operation_code, self.flags]
            + self.lba_be@
            + seq![self.group]
            + self.transfer_length_be@
            + seq![self.control]
    }
}

impl Write10 {
    /// The 10 bytes of the command.
    pub open spec fn wire(lba: u32, count: u16) -> Seq<u8> {
        seq![0x2Au8, 0u8]
            + be_bytes(lba as nat, 4)
            + seq![0u8]
            + be_bytes(count as nat, 2)
            + seq![0u8]
    }

    /// The command, ready to be sent.
    pub fn new(lba: u32, count: u16) -> (c: Self)
        ensures
            c@ == Self::wire(lba, count),
            c@.len() == 10,
    {
        Self {
            operation_code: 0x2A,
            flags: 0,
            lba_be: u32_to_be(lba),
            group: 0,
            transfer_length_be: u16_to_be(count),
            control: 0,
        }
    }

    /// The command as bytes, ready for the transport.
    pub fn bytes(&self) -> (b: [u8; 10])
        ensures
            b@ == self@,
    {
        let b = [
            self.operation_code,
            self.flags,
            self.lba_be[0],
            self.lba_be[1],
            self.lba_be[2],
            self.lba_be[3],
            self.group,
            self.transfer_length_be[0],
            self.transfer_length_be[1],
            self.control,
        ];
        assert(b@ =~= self@);
        b
    }
}

/// WRITE (16): write `count` blocks from block `lba` on.
#[derive(Clone, Copy, Debug)]
pub struct Write16 {
    operation_code: u8,
    flags: u8,
    lba_be: [u8; 8],
    transfer_length_be: [u8; 4],
    group: u8,
    control: u8,
}

impl View for Write16 {
    type V = Seq<u8>;

    /// The command as it goes over the wire.
    closed spec fn view(&self) -> Seq<u8> {
        seq![self.operation_code, self.flags]
            + self.lba_be@
            + self.transfer_length_be@
            + seq![self.group, self.control]
    }
}

impl Write16 {
    /// The 16 bytes of the command.
    pub open spec fn wire(lba: u64, count: u32) -> Seq<u8> {
        seq![0x8Au8, 0u8] + be_bytes(lba as nat, 8) + be_bytes(count as nat, 4) + seq![0u8, 0u8]
    }

    /// The command, ready to be sent.
    pub fn new(lba: u64, count: u32) -> (c: Self)
        ensures
            c@ == Self::wire(lba, count),
            c@.len() == 16,
    {
        Self {
            operation_code: 0x8A,
            flags: 0,
            lba_be: u64_to_be(lba),
            transfer_length_be: u32_to_be(count),
            group: 0,
            control: 0,
        }
    }

    /// The command as bytes, ready for the transport.
    pub fn bytes(&self) -> (b: [u8; 16])
        ensures
            b@ == self@,
    {
        let b = [
            self.operation_code,
            self.flags,
            self.lba_be[0],
            self.lba_be[1],
            self.lba_be[2],
            self.lba_be[3],
            self.lba_be[4],
            self.lba_be[5],
            self.lba_be[6],
            self.lba_be[7],
            self.transfer_length_be[0],
            self.transfer_length_be[1],
            self.transfer_length_be[2],
            self.transfer_length_be[3],
            self.group,
            self.control,
        ];
        assert(b@ =~= self@);
        b
    }
}

/// READ CAPACITY (10).
#[derive(Clone, Copy, Debug)]
pub struct ReadCapacity10 {
    operation_code: u8,
    reserved1: u8,
    lba_be: [u8; 4],
    reserved6: [u8; 3],
    control: u8,
}

impl View for ReadCapacity10 {
    type V = Seq<u8>;

    /// The command as it goes over the wire.
    closed spec fn view(&self) -> Seq<u8> {
        seq![self.operation_code, self.reserved1]
            + self.lba_be@
            + self.reserved6@
            + seq![self.control]
    }
}

impl ReadCapacity10 {
    /// The 10 bytes of the command.
    pub open spec fn wire() -> Seq<u8> {
        seq![0x25u8, 0u8] + seq![0u8, 0u8, 0u8, 0u8] + seq![0u8, 0u8, 0u8] + seq![0u8]
    }

    /// The command, ready to be sent.
    pub fn new() -> (c: Self)
        ensures
            c@ == Self::wire(),
            c@.len() == 10,
    {
        Self {
            operation_code: 0x25,
            reserved1: 0,
            lba_be: [0u8; 4],
            reserved6: [0u8; 3],
            control: 0,
        }
    }

    /// The command as bytes, ready for the transport.
    pub fn bytes(&self) -> (b: [u8; 10])
        ensures
            b@ == self@,
    {
        let b = [
            self.operation_code,
            self.reserved1,
            self.lba_be[0],
            self.lba_be[1],
            self.lba_be[2],
            self.lba_be[3],
            self.reserved6[0],
            self.reserved6[1],
            self.reserved6[2],
            self.control,
        ];
        assert(b@ =~= self@);
        b
    }
}

/// READ CAPACITY (16), with room for a reply of 32 bytes.
#[derive(Clone, Copy, Debug)]
pub struct ReadCapacity16 {
    operation_code: u8,
    service_action: u8,
    lba_be: [u8; 8],
    allocation_length_be: [u8; 4],
    reserved: u8,
    control: u8,
}

impl View for ReadCapacity16 {
    type V = Seq<u8>;

    /// The command as it goes over the wire.
    closed spec fn view(&self) -> Seq<u8> {
        seq![self.operation_code, self.service_action]
            + self.lba_be@
            + self.allocation_length_be@
            + seq![self.reserved, self.control]
    }
}

impl ReadCapacity16 {
    /// The 16 bytes of the command.
    pub open spec fn wire() -> Seq<u8> {
        seq![0x9Eu8, 0x10u8]
            + seq![0u8, 0u8, 0u8, 0u8, 0u8, 0u8, 0u8, 0u8]
            + seq![0u8, 0u8, 0u8, 32u8]
            + seq![0u8, 0u8]
    }

    /// The command, ready to be sent.
    pub fn new() -> (c: Self)
        ensures
            c@ == Self::wire(),
            c@.len() == 16,
    {
        Self {
            operation_code: 0x9E,
            service_action: 0x10,
            lba_be: [0u8; 8],
            allocation_length_be: [0, 0, 0, 32],
            reserved: 0,
            control: 0,
        }
    }

    /// The command as bytes, ready for the transport.
    pub fn bytes(&self) -> (b: [u8; 16])
        ensures
            b@ == self@,
    {
        let b = [
            self.operation_code,
            self.service_action,
            self.lba_be[0],
            self.lba_be[1],
            self.lba_be[2],
            self.lba_be[3],
            self.lba_be[4],
            self.lba_be[5],
            self.lba_be[6],
            self.lba_be[7],
            self.allocation_length_be[0],
            self.allocation_length_be[1],
            self.allocation_length_be[2],
            self.allocation_length_be[3],
            self.reserved,
            self.control,
        ];
        assert(b@ =~= self@);
        b
    }
}

/// TEST UNIT READY.
#[derive(Clone, Copy, Debug)]
pub struct TestUnitReady {
    operation_code: u8,
    reserved: [u8; 4],
    control: u8,
}

impl View for TestUnitReady {
    type V = Seq<u8>;

    /// The command as it goes over the wire.
    closed spec fn view(&self) -> Seq<u8> {
        seq![self.operation_code] + self.reserved@ + seq![self.control]
    }
}

impl TestUnitReady {
    /// The 6 bytes of the command.
    pub open spec fn wire() -> Seq<u8> {
        seq![0x00u8] + seq![0u8, 0u8, 0u8, 0u8] + seq![0u8]
    }

    /// The command, ready to be sent.
    pub fn new() -> (c: Self)
        ensures
            c@ == Self::wire(),
            c@.len() == 6,
    {
        Self {
            operation_code: 0x00,
            reserved: [0u8; 4],
            control: 0,
        }
    }

    /// The command as bytes, ready for the transport.
    pub fn bytes(&self) -> (b: [u8; 6])
        ensures
            b@ == self@,
    {
        let b = [
            self.operation_code,
            self.reserved[0],
            self.reserved[1],
            self.reserved[2],
            self.reserved[3],
            self.control,
        ];
        assert(b@ =~= self@);
        b
    }
}

/// REQUEST SENSE, with room for a reply of 18 bytes in fixed format.
#[derive(Clone, Copy, Debug)]
pub struct RequestSense {
    operation_code: u8,
    desc: u8,
    reserved: [u8; 2],
    allocation_length: u8,
    control: u8,
}

impl View for RequestSense {
    type V = Seq<u8>;

    /// The command as it goes over the wire.
    closed spec fn view(&self) -> Seq<u8> {
        seq![self.operation_code, self.desc]
            + self.reserved@
            + seq![self.allocation_length, self.control]
    }
}

impl RequestSense {
    /// The 6 bytes of the command.
    pub open spec fn wire() -> Seq<u8> {
        seq![3u8, 0u8] + seq![0u8, 0u8] + seq![18u8, 0u8]
    }

    /// The command, ready to be sent.
    pub fn new() -> (c: Self)
        ensures
            c@ == Self::wire(),
            c@.len() == 6,
    {
        Self {
            operation_code: 3,
            desc: 0,
            reserved: [0u8; 2],
            allocation_length: 18,
            control: 0,
        }
    }

    /// The command as bytes, ready for the transport.
    pub fn bytes(&self) -> (b: [u8; 6])
        ensures
            b@ == self@,
    {
        let b = [
            self.operation_code,
            self.desc,
            self.reserved[0],
            self.reserved[1],
            self.allocation_length,
            self.control,
        ];
        assert(b@ =~= self@);
        b
    }
}

/// REPORT SUPPORTED OPERATION CODES, asking about one operation code, with
/// room for a reply of 4 bytes.
#[derive(Clone, Copy, Debug)]
pub struct ReportSupportedOperationCodes {
    operation_code: u8,
    service_action: u8,
    reporting_options: u8,
    requested_opcode: u8,
    requested_service_action_be: [u8; 2],
    allocation_length_be: [u8; 4],
    reserved: u8,
    control: u8,
}

impl View for ReportSupportedOperationCodes {
    type V = Seq<u8>;

    /// The command as it goes over the wire.
    closed spec fn view(&self) -> Seq<u8> {
        seq![self.operation_code, self.service_action, self.reporting_options, self.requested_opcode]
            + self.requested_service_action_be@
            + self.allocation_length_be@
            + seq![self.reserved, self.control]
    }
}

impl ReportSupportedOperationCodes {
    /// The 12 bytes of the command. A service action that is not given
    /// stands as zero.
    pub open spec fn wire(opcode: u8, service_action: Option<u16>) -> Seq<u8> {
        let action = match service_action {
            Some(a) => a,
            None => 0,
        };
        seq![0xA3u8, 0x0Cu8, 3u8, opcode]
            + be_bytes(action as nat, 2)
            + seq![0u8, 0u8, 0u8, 4u8]
            + seq![0u8, 0u8]
    }

    /// The command, ready to be sent.
    pub fn new(opcode: u8, service_action: Option<u16>) -> (c: Self)
        ensures
            c@ == Self::wire(opcode, service_action),
            c@.len() == 12,
    {
        let action = match service_action {
            Some(a) => a,
            None => 0,
        };
        Self {
            operation_code: 0xA3,
            service_action: 0x0C,
            reporting_options: 3,
            requested_opcode: opcode,
            requested_service_action_be: u16_to_be(action),
            allocation_length_be: [0, 0, 0, 4],
            reserved: 0,
            control: 0,
        }
    }

    /// The command as bytes, ready for the transport.
    pub fn bytes(&self) -> (b: [u8; 12])
        ensures
            b@ == self@,
    {
        let b = [
            self.operation_code,
            self.service_action,
            self.reporting_options,
            self.requested_opcode,
            self.requested_service_action_be[0],
            self.requested_service_action_be[1],
            self.allocation_length_be[0],
            self.allocation_length_be[1],
            self.allocation_length_be[2],
            self.allocation_length_be[3],
            self.reserved,
            self.control,
        ];
        assert(b@ =~= self@);
        b
    }
}

/// INQUIRY: for the standard data, or for one page of vital product data.
#[derive(Clone, Copy, Debug)]
pub struct Inquiry {
    operation_code: u8,
    evpd: u8,
    page_code: u8,
    allocation_length_be: [u8; 2],
    control: u8,
}

impl View for Inquiry {
    type V = Seq<u8>;

    /// The command as it goes over the wire.
    closed spec fn view(&self) -> Seq<u8> {
        seq![self.operation_code, self.evpd, self.page_code] + self.allocation_length_be@ + seq![
            self.control,
        ]
    }
}

impl Inquiry {
    /// The 6 bytes of the command: with a page, the flag for vital product
    /// data is set and the page is named; without, both are zero.
    pub open spec fn wire(evpd: Option<u8>, len: u16) -> Seq<u8> {
        let (flag, page) = match evpd {
            Some(page) => (1u8, page),
            None => (0u8, 0u8),
        };
        seq![0x12u8, flag, page] + be_bytes(len as nat, 2) + seq![0u8]
    }

    /// The command, ready to be sent.
    pub fn new(evpd: Option<u8>, len: u16) -> (c: Self)
        ensures
            c@ == Self::wire(evpd, len),
            c@.len() == 6,
    {
        let (flag, page) = match evpd {
            Some(page) => (1u8, page),
            None => (0u8, 0u8),
        };
        Self {
            operation_code: 0x12,
            evpd: flag,
            page_code: page,
            allocation_length_be: u16_to_be(len),
            control: 0,
        }
    }

    /// The command as bytes, ready for the transport.
    pub fn bytes(&self) -> (b: [u8; 6])
        ensures
            b@ == self@,
    {
        let b = [
            self.operation_code,
            self.evpd,
            self.page_code,
            self.allocation_length_be[0],
            self.allocation_length_be[1],
            self.control,
        ];
        assert(b@ =~= self@);
        b
    }
}

/// The general kind of a SCSI device, as its INQUIRY data names it.
///
/// Mass-storage devices are `PeripheralType::Disk`.
#[derive(Clone, Copy, Debug, Default, PartialEq, Eq, Structural)]
pub enum PeripheralType {
    /// Direct-access block device: a disk, a USB drive.
    Disk,
    /// Sequential-access storage: tape.
    Sequential,
    Printer,
    Processor,
    WriteOnce,
    /// CD, DVD and the like.
    Optical,
    Scanner,
    OpticalMemory,
    /// Medium changer: a jukebox.
    Changer,
    Communications,
    Obsolete10,
    Obsolete11,
    /// RAID array.
    StorageArray,
    EnclosureServices,
    SimplifiedDirect,
    OpticalCardReader,
    BridgeController,
    ObjectStorage,
    Automation,
    Reserved13,
    Reserved14,
    Reserved15,
    Reserved16,
    Reserved17,
    Reserved18,
    Reserved19,
    Reserved1A,
    Reserved1B,
    Reserved1C,
    Reserved1D,
    WellKnownUnit,
    #[default]
    Other,
}

impl PeripheralType {
    /// The number that stands for the kind in INQUIRY data.
    pub open spec fn spec_code(self) -> u8 {
        match self {
            PeripheralType::Disk => 0,
            PeripheralType::Sequential => 1,
            PeripheralType::Printer => 2,
            PeripheralType::Processor => 3,
            PeripheralType::WriteOnce => 4,
            PeripheralType::Optical => 5,
            PeripheralType::Scanner => 6,
            PeripheralType::OpticalMemory => 7,
            PeripheralType::Changer => 8,
            PeripheralType::Communications => 9,
            PeripheralType::Obsolete10 => 10,
            PeripheralType::Obsolete11 => 11,
            PeripheralType::StorageArray => 12,
            PeripheralType::EnclosureServices => 13,
            PeripheralType::SimplifiedDirect => 14,
            PeripheralType::OpticalCardReader => 15,
            PeripheralType::BridgeController => 16,
            PeripheralType::ObjectStorage => 17,
            PeripheralType::Automation => 18,
            PeripheralType::Reserved13 => 19,
            PeripheralType::Reserved14 => 20,
            PeripheralType::Reserved15 => 21,
            PeripheralType::Reserved16 => 22,
            PeripheralType::Reserved17 => 23,
            PeripheralType::Reserved18 => 24,
            PeripheralType::Reserved19 => 25,
            PeripheralType::Reserved1A => 26,
            PeripheralType::Reserved1B => 27,
            PeripheralType::Reserved1C => 28,
            PeripheralType::Reserved1D => 29,
            PeripheralType::WellKnownUnit => 30,
            PeripheralType::Other => 31,
        }
    }

    /// The number that stands for the kind in INQUIRY data.
    #[verifier::when_used_as_spec(spec_code)]
    pub fn code(self) -> (c: u8)
        ensures
            c == self.spec_code(),
            c < 32,
    {
        match self {
            PeripheralType::Disk => 0,
            PeripheralType::Sequential => 1,
            PeripheralType::Printer => 2,
            PeripheralType::Processor => 3,
            PeripheralType::WriteOnce => 4,
            PeripheralType::Optical => 5,
            PeripheralType::Scanner => 6,
            PeripheralType::OpticalMemory => 7,
            PeripheralType::Changer => 8,
            PeripheralType::Communications => 9,
            PeripheralType::Obsolete10 => 10,
            PeripheralType::Obsolete11 => 11,
            PeripheralType::StorageArray => 12,
            PeripheralType::EnclosureServices => 13,
            PeripheralType::SimplifiedDirect => 14,
            PeripheralType::OpticalCardReader => 15,
            PeripheralType::BridgeController => 16,
            PeripheralType::ObjectStorage => 17,
            PeripheralType::Automation => 18,
            PeripheralType::Reserved13 => 19,
            PeripheralType::Reserved14 => 20,
            PeripheralType::Reserved15 => 21,
            PeripheralType::Reserved16 => 22,
            PeripheralType::Reserved17 => 23,
            PeripheralType::Reserved18 => 24,
            PeripheralType::Reserved19 => 25,
            PeripheralType::Reserved1A => 26,
            PeripheralType::Reserved1B => 27,
            PeripheralType::Reserved1C => 28,
            PeripheralType::Reserved1D => 29,
            PeripheralType::WellKnownUnit => 30,
            PeripheralType::Other => 31,
        }
    }

    /// The kind that the first byte of INQUIRY data names: its low five
    /// bits count, the rest is the peripheral qualifier.
    pub fn from_code(byte: u8) -> (t: PeripheralType)
        ensures
            t.spec_code() == byte & 0x1F,
    {
        let code = byte & 0x1F;
        assert(byte & 0x1F < 32) by (bit_vector);
        match code {
            0 => PeripheralType::Disk,
            1 => PeripheralType::Sequential,
            2 => PeripheralType::Printer,
            3 => PeripheralType::Processor,
            4 => PeripheralType::WriteOnce,
            5 => PeripheralType::Optical,
            6 => PeripheralType::Scanner,
            7 => PeripheralType::OpticalMemory,
            8 => PeripheralType::Changer,
            9 => PeripheralType::Communications,
            10 => PeripheralType::Obsolete10,
            11 => PeripheralType::Obsolete11,
            12 => PeripheralType::StorageArray,
            13 => PeripheralType::EnclosureServices,
            14 => PeripheralType::SimplifiedDirect,
            15 => PeripheralType::OpticalCardReader,
            16 => PeripheralType::BridgeController,
            17 => PeripheralType::ObjectStorage,
            18 => PeripheralType::Automation,
            19 => PeripheralType::Reserved13,
            20 => PeripheralType::Reserved14,
            21 => PeripheralType::Reserved15,
            22 => PeripheralType::Reserved16,
            23 => PeripheralType::Reserved17,
            24 => PeripheralType::Reserved18,
            25 => PeripheralType::Reserved19,
            26 => PeripheralType::Reserved1A,
            27 => PeripheralType::Reserved1B,
            28 => PeripheralType::Reserved1C,
            29 => PeripheralType::Reserved1D,
            30 => PeripheralType::WellKnownUnit,
            _ => PeripheralType::Other,
        }
    }
}

/// What INQUIRY tells of a device.
#[derive(Clone, Copy, Debug, Default, PartialEq, Eq, Structural)]
pub struct InquiryData {
    /// The general kind of the device.
    pub peripheral_type: PeripheralType,
    /// Whether the device takes removable media: disks mostly not, CD-ROM
    /// drives mostly so.
    pub is_removable: bool,
}

/// Reply to READ CAPACITY (10).
#[derive(Clone, Copy, Debug, Default)]
pub struct ReadCapacity10Reply {
    pub lba: [u8; 4],
    pub block_size: [u8; 4],
}

impl ReadCapacity10Reply {
    /// The reply that 8 bytes hold, field by field.
    pub fn from_bytes(b: &[u8; 8]) -> (r: Self)
        ensures
            r.lba@ == b@.subrange(0, 4),
            r.block_size@ == b@.subrange(4, 8),
    {
        Self { lba: field(b.as_slice(), 0), block_size: field(b.as_slice(), 4) }
    }

    /// Number of the last block, and size of a block in bytes.
    pub fn capacity(&self) -> (r: (u32, u32))
        ensures
            r.0 == be_value(self.lba@),
            r.1 == be_value(self.block_size@),
    {
        (u32_from_be(&self.lba), u32_from_be(&self.block_size))
    }
}

/// Reply to READ CAPACITY (16).
#[derive(Clone, Copy, Debug, Default)]
pub struct ReadCapacity16Reply {
    pub lba: [u8; 8],
    pub block_size: [u8; 4],
    pub flags: [u8; 2],
    pub lowest_aligned_lba: [u8; 2],
    pub reserved: [u8; 16],
}

impl ReadCapacity16Reply {
    /// The reply that 32 bytes hold, field by field.
    pub fn from_bytes(b: &[u8; 32]) -> (r: Self)
        ensures
            r.lba@ == b@.subrange(0, 8),
            r.block_size@ == b@.subrange(8, 12),
            r.flags@ == b@.subrange(12, 14),
            r.lowest_aligned_lba@ == b@.subrange(14, 16),
            r.reserved@ == b@.subrange(16, 32),
    {
        Self {
            lba: field(b.as_slice(), 0),
            block_size: field(b.as_slice(), 8),
            flags: field(b.as_slice(), 12),
            lowest_aligned_lba: field(b.as_slice(), 14),
            reserved: field(b.as_slice(), 16),
        }
    }

    /// Number of the last block, and size of a block in bytes.
    pub fn capacity(&self) -> (r: (u64, u32))
        ensures
            r.0 == be_value(self.lba@),
            r.1 == be_value(self.block_size@),
    {
        (u64_from_be(&self.lba), u32_from_be(&self.block_size))
    }
}

/// Reply to REQUEST SENSE, in fixed format.
#[derive(Clone, Copy, Debug, Default)]
pub struct RequestSenseReply {
    pub response_code: u8,
    pub reserved1: u8,
    pub sense_key: u8,
    pub information: [u8; 4],
    pub additional_length: u8,
    pub command_specific_information: [u8; 4],
    pub additional_sense_code: u8,
    pub additional_sense_code_qualifier: u8,
    pub fru_code: u8,
    pub sense_key_specific: [u8; 3],
}

impl RequestSenseReply {
    /// Whether the reply is what the 18 bytes `b` hold, field by field.
    pub open spec fn holds(self, b: Seq<u8>) -> bool {
        &&& self.response_code == b[0]
        &&& self.reserved1 == b[1]
        &&& self.sense_key == b[2]
        &&& self.information@ == b.subrange(3, 7)
        &&& self.additional_length == b[7]
        &&& self.command_specific_information@ == b.subrange(8, 12)
        &&& self.additional_sense_code == b[12]
        &&& self.additional_sense_code_qualifier == b[13]
        &&& self.fru_code == b[14]
        &&& self.sense_key_specific@ == b.subrange(15, 18)
    }

    /// The reply that 18 bytes hold, field by field.
    pub fn from_bytes(b: &[u8; 18]) -> (r: Self)
        ensures
            r.holds(b@),
    {
        Self {
            response_code: b[0],
            reserved1: b[1],
            sense_key: b[2],
            information: field(b.as_slice(), 3),
            additional_length: b[7],
            command_specific_information: field(b.as_slice(), 8),
            additional_sense_code: b[12],
            additional_sense_code_qualifier: b[13],
            fru_code: b[14],
            sense_key_specific: field(b.as_slice(), 15),
        }
    }
}

/// Reply to REPORT SUPPORTED OPERATION CODES, in the format for one command.
#[derive(Clone, Copy, Debug, Default)]
pub struct ReportSupportedOperationCodesReply {
    pub reserved: u8,
    pub support: u8,
    pub cdb_size: [u8; 2],
}

impl ReportSupportedOperationCodesReply {
    /// The reply that 4 bytes hold, field by field.
    pub fn from_bytes(b: &[u8; 4]) -> (r: Self)
        ensures
            r.reserved == b@[0],
            r.support == b@[1],
            r.cdb_size@ == b@.subrange(2, 4),
    {
        Self { reserved: b[0], support: b[1], cdb_size: field(b.as_slice(), 2) }
    }

    /// Whether the device supports the command in conformance with the
    /// standard.
    pub fn supported(&self) -> (r: bool)
        ensures
            r == (self.support & 7 == 3),
    {
        (self.support & 7) == 3
    }
}

/// The compulsory leading 36 bytes of standard INQUIRY data. A device that
/// has more cuts its data short.
#[derive(Clone, Copy, Debug, Default)]
pub struct StandardInquiryData {
    pub peripheral_device_type: u8,
    pub removable: u8,
    pub version: u8,
    pub data_format: u8,
    pub additional_length: u8,
    pub flags: [u8; 3],
    pub vendor_id: [u8; 8],
    pub product_id: [u8; 16],
    pub product_revision: [u8; 4],
}

impl StandardInquiryData {
    /// The reply that 36 bytes hold, field by field.
    pub fn from_bytes(b: &[u8; 36]) -> (r: Self)
        ensures
            r.peripheral_device_type == b@[0],
            r.removable == b@[1],
            r.version == b@[2],
            r.data_format == b@[3],
            r.additional_length == b@[4],
            r.flags@ == b@.subrange(5, 8),
            r.vendor_id@ == b@.subrange(8, 16),
            r.product_id@ == b@.subrange(16, 32),
            r.product_revision@ == b@.subrange(32, 36),
    {
        Self {
            peripheral_device_type: b[0],
            removable: b[1],
            version: b[2],
            data_format: b[3],
            additional_length: b[4],
            flags: field(b.as_slice(), 5),
            vendor_id: field(b.as_slice(), 8),
            product_id: field(b.as_slice(), 16),
            product_revision: field(b.as_slice(), 32),
        }
    }

    /// What the data tells of the device: its kind, from the low five bits
    /// of the first byte, and whether its media are removable, from the top
    /// bit of the second.
    pub fn inquiry_data(&self) -> (d: InquiryData)
        ensures
            d.peripheral_type.spec_code() == self.peripheral_device_type & 0x1F,
            d.is_removable == (self.removable & 0x80 != 0),
    {
        InquiryData {
            peripheral_type: PeripheralType::from_code(self.peripheral_device_type),
            is_removable: (self.removable & 0x80) != 0,
        }
    }
}

/// The Block Limits page of a device's vital product data.
#[derive(Clone, Copy, Debug, Default, PartialEq, Eq)]
pub struct BlockLimitsPage {
    peripheral_device_type: u8,
    page_code: u8,
    page_length: [u8; 2],
    wsnz: u8,
    max_compare_and_write: u8,
    optimal_transfer_length_granularity: [u8; 2],
    maximum_transfer_length: [u8; 4],
    optimal_transfer_length: [u8; 4],
    maximum_prefetch_length: [u8; 4],
    maximum_unmap_lba_count: [u8; 4],
    maximum_unmap_block_descriptor_count: [u8; 4],
    optimal_unmap_granularity: [u8; 4],
    unmap_granularity_alignment: [u8; 4],
    maximum_write_same_length: [u8; 8],
    maximum_atomic_transfer_length: [u8; 4],
    atomic_alignment: [u8; 4],
    atomic_transfer_length_granularity: [u8; 4],
    maximum_atomic_transfer_length_with_atomic_boundary: [u8; 4],
    maximum_atomic_boundary_size: [u8; 4],
}

impl View for BlockLimitsPage {
    type V = Seq<u8>;

    /// The 64 bytes of the page.
    closed spec fn view(&self) -> Seq<u8> {
        seq![self.peripheral_device_type, self.page_code]
            + self.page_length@
            + seq![self.wsnz, self.max_compare_and_write]
            + self.optimal_transfer_length_granularity@
            + self.maximum_transfer_length@
            + self.optimal_transfer_length@
            + self.maximum_prefetch_length@
            + self.maximum_unmap_lba_count@
            + self.maximum_unmap_block_descriptor_count@
            + self.optimal_unmap_granularity@
            + self.unmap_granularity_alignment@
            + self.maximum_write_same_length@
            + self.maximum_atomic_transfer_length@
            + self.atomic_alignment@
            + self.atomic_transfer_length_granularity@
            + self.maximum_atomic_transfer_length_with_atomic_boundary@
            + self.maximum_atomic_boundary_size@
    }
}

impl BlockLimitsPage {
    /// The page that 64 bytes of reply hold.
    pub fn from_bytes(b: &[u8; 64]) -> (r: Self)
        ensures
            r@ == b@,
    {
        let s = b.as_slice();
        let r = Self {
            peripheral_device_type: b[0],
            page_code: b[1],
            page_length: field(s, 2),
            wsnz: b[4],
            max_compare_and_write: b[5],
            optimal_transfer_length_granularity: field(s, 6),
            maximum_transfer_length: field(s, 8),
            optimal_transfer_length: field(s, 12),
            maximum_prefetch_length: field(s, 16),
            maximum_unmap_lba_count: field(s, 20),
            maximum_unmap_block_descriptor_count: field(s, 24),
            optimal_unmap_granularity: field(s, 28),
            unmap_granularity_alignment: field(s, 32),
            maximum_write_same_length: field(s, 36),
            maximum_atomic_transfer_length: field(s, 44),
            atomic_alignment: field(s, 48),
            atomic_transfer_length_granularity: field(s, 52),
            maximum_atomic_transfer_length_with_atomic_boundary: field(s, 56),
            maximum_atomic_boundary_size: field(s, 60),
        };
        assert(r@ =~= b@);
        r
    }
}

/// The condition that a sense key with its additional sense code and
/// qualifier names, for the triples that name one.
pub open spec fn sense_by_qualifier(key: u8, code: u8, qualifier: u8) -> Option<ScsiError> {
    match (key, code, qualifier) {
        (2, 0x04, 0x01) => Some(ScsiError::BecomingReady),
        (2, 0x04, 0x02) => Some(ScsiError::StartUnitRequired),
        (2, 0x04, 0x03) => Some(ScsiError::ManualInterventionRequired),
        (2, 0x04, 0x04) => Some(ScsiError::FormatInProgress),
        (2, 0x04, 0x09) => Some(ScsiError::SelfTestInProgress),
        (2, 0x04, 0x22) => Some(ScsiError::PowerCycleRequired),
        (1, 0x0B, 0x01) => Some(ScsiError::Overheat),
        (1, 0x0B, 0x02) => Some(ScsiError::EnclosureDegraded),
        (3, 0x0C, 0x00) => Some(ScsiError::WriteError),
        (3, 0x0C, 0x02) => Some(ScsiError::WriteReallocationFailed),
        (1, 0x11, 0x00) => Some(ScsiError::UnrecoveredReadError),
        (1, 0x11, 0x01) => Some(ScsiError::ReadRetriesExhausted),
        (1, 0x11, 0x02) => Some(ScsiError::ReadErrorTooLong),
        (3, 0x11, 0x04) => Some(ScsiError::ReadReallocationFailed),
        (3, 0x14, 0x00) => Some(ScsiError::LogicalBlockNotFound),
        (3, 0x14, 0x01) => Some(ScsiError::RecordNotFound),
        (5, 0x26, 0x00) => Some(ScsiError::InvalidFieldInParameterList),
        (5, 0x26, 0x01) => Some(ScsiError::ParameterNotSupported),
        (5, 0x26, 0x02) => Some(ScsiError::ParameterValueInvalid),
        (4, 0x3E, 0x03) => Some(ScsiError::LogicalUnitSelfTestFailed),
        (4, 0x42, 0x00) => Some(ScsiError::SelfTestFailed),
        _ => None,
    }
}

/// The condition that a sense key with its additional sense code names,
/// whatever the qualifier, for the pairs that name one.
pub open spec fn sense_by_code(key: u8, code: u8) -> Option<ScsiError> {
    match (key, code) {
        (3, 0x14) => Some(ScsiError::PositioningError),
        (5, 0x1A) => Some(ScsiError::ParameterListLengthError),
        (14, 0x1D) => Some(ScsiError::MiscompareDuringVerify),
        (5, 0x20) => Some(ScsiError::InvalidCommandOperationCode),
        (13, 0x21) => Some(ScsiError::LogicalBlockAddressOutOfRange),
        (5, 0x24) => Some(ScsiError::InvalidFieldInCDB),
        (5, 0x25) => Some(ScsiError::LogicalUnitNotSupported),
        _ => None,
    }
}

/// The condition that a sense key names by itself, for the keys that name
/// one.
pub open spec fn sense_by_key(key: u8) -> Option<ScsiError> {
    match key {
        2 => Some(ScsiError::NotReady),
        3 => Some(ScsiError::MediumError),
        4 => Some(ScsiError::HardwareError),
        5 => Some(ScsiError::IllegalRequest),
        6 => Some(ScsiError::UnitAttention),
        7 => Some(ScsiError::DataProtect),
        8 => Some(ScsiError::BlankCheck),
        9 => Some(ScsiError::VendorSpecific),
        10 => Some(ScsiError::CopyAborted),
        11 => Some(ScsiError::Aborted),
        13 => Some(ScsiError::VolumeOverflow),
        14 => Some(ScsiError::Miscompare),
        _ => None,
    }
}

/// The condition that sense data names: the most specific reading that names
/// one wins, the triple before the pair, the pair before the key alone.
pub open spec fn spec_sense_error(key: u8, code: u8, qualifier: u8) -> Option<ScsiError> {
    match sense_by_qualifier(key, code, qualifier) {
        Some(e) => Some(e),
        None => match sense_by_code(key, code) {
            Some(e) => Some(e),
            None => sense_by_key(key),
        },
    }
}

/// The condition that sense data names, if it names one.
#[verifier::when_used_as_spec(spec_sense_error)]
pub fn sense_error(key: u8, code: u8, qualifier: u8) -> (r: Option<ScsiError>)
    ensures
        r == spec_sense_error(key, code, qualifier),
{
    let by_qualifier = match (key, code, qualifier) {
        (2, 0x04, 0x01) => Some(ScsiError::BecomingReady),
        (2, 0x04, 0x02) => Some(ScsiError::StartUnitRequired),
        (2, 0x04, 0x03) => Some(ScsiError::ManualInterventionRequired),
        (2, 0x04, 0x04) => Some(ScsiError::FormatInProgress),
        (2, 0x04, 0x09) => Some(ScsiError::SelfTestInProgress),
        (2, 0x04, 0x22) => Some(ScsiError::PowerCycleRequired),
        (1, 0x0B, 0x01) => Some(ScsiError::Overheat),
        (1, 0x0B, 0x02) => Some(ScsiError::EnclosureDegraded),
        (3, 0x0C, 0x00) => Some(ScsiError::WriteError),
        (3, 0x0C, 0x02) => Some(ScsiError::WriteReallocationFailed),
        (1, 0x11, 0x00) => Some(ScsiError::UnrecoveredReadError),
        (1, 0x11, 0x01) => Some(ScsiError::ReadRetriesExhausted),
        (1, 0x11, 0x02) => Some(ScsiError::ReadErrorTooLong),
        (3, 0x11, 0x04) => Some(ScsiError::ReadReallocationFailed),
        (3, 0x14, 0x00) => Some(ScsiError::LogicalBlockNotFound),
        (3, 0x14, 0x01) => Some(ScsiError::RecordNotFound),
        (5, 0x26, 0x00) => Some(ScsiError::InvalidFieldInParameterList),
        (5, 0x26, 0x01) => Some(ScsiError::ParameterNotSupported),
        (5, 0x26, 0x02) => Some(ScsiError::ParameterValueInvalid),
        (4, 0x3E, 0x03) => Some(ScsiError::LogicalUnitSelfTestFailed),
        (4, 0x42, 0x00) => Some(ScsiError::SelfTestFailed),
        _ => None,
    };
    if by_qualifier.is_some() {
        return by_qualifier;
    }
    let by_code = match (key, code) {
        (3, 0x14) => Some(ScsiError::PositioningError),
        (5, 0x1A) => Some(ScsiError::ParameterListLengthError),
        (14, 0x1D) => Some(ScsiError::MiscompareDuringVerify),
        (5, 0x20) => Some(ScsiError::InvalidCommandOperationCode),
        (13, 0x21) => Some(ScsiError::LogicalBlockAddressOutOfRange),
        (5, 0x24) => Some(ScsiError::InvalidFieldInCDB),
        (5, 0x25) => Some(ScsiError::LogicalUnitNotSupported),
        _ => None,
    };
    if by_code.is_some() {
        return by_code;
    }
    match key {
        2 => Some(ScsiError::NotReady),
        3 => Some(ScsiError::MediumError),
        4 => Some(ScsiError::HardwareError),
        5 => Some(ScsiError::IllegalRequest),
        6 => Some(ScsiError::UnitAttention),
        7 => Some(ScsiError::DataProtect),
        8 => Some(ScsiError::BlankCheck),
        9 => Some(ScsiError::VendorSpecific),
        10 => Some(ScsiError::CopyAborted),
        11 => Some(ScsiError::Aborted),
        13 => Some(ScsiError::VolumeOverflow),
        14 => Some(ScsiError::Miscompare),
        _ => None,
    }
}

/// Why a cast between plain-data forms failed.
#[verifier::external_type_specification]
#[verifier::external_body]
pub struct ExPodCastError(bytemuck::PodCastError);

/// `bytemuck::try_from_bytes`, at the type of 18 bytes: the cast succeeds if
/// and only if the slice is exactly 18 bytes long, an array of bytes having no
/// alignment to miss, and then yields those bytes.
#[verifier::external_body]
fn sense_bytes(bytes: &[u8]) -> (r: Result<[u8; 18], bytemuck::PodCastError>)
    ensures
        r is Ok <==> bytes@.len() == 18,
        r matches Ok(a) ==> a@ == bytes@,
{
    bytemuck::try_from_bytes::<[u8; 18]>(bytes).copied()
}

/// A buffer of `n` zero bytes: the room that a reply is received in, as it
/// is handed to the transport.
pub open spec fn zeros(n: nat) -> Seq<u8> {
    Seq::new(n, |i: int| 0u8)
}

/// Whether `r` is what an answer to REQUEST SENSE amounts to, `rc` being
/// what the transport returned and `bytes` what it left in the buffer: an
/// error of the transport stands; a reply of exactly 18 bytes is the sense
/// data; a reply of any other length is a protocol error.
pub open spec fn is_sense_reply<E>(
    rc: Result<usize, Error<E>>,
    bytes: Seq<u8>,
    r: Result<RequestSenseReply, Error<E>>,
) -> bool {
    match rc {
        Err(e) => r == Err::<RequestSenseReply, Error<E>>(e),
        Ok(sz) => if sz == 18 {
            r matches Ok(reply) && reply.holds(bytes)
        } else {
            r == Err::<RequestSenseReply, Error<E>>(Error::ProtocolError)
        },
    }
}

/// The condition that an answer to REQUEST SENSE names, if it is sense data
/// and names one.
pub open spec fn sense_named<E>(rc: Result<usize, Error<E>>, bytes: Seq<u8>) -> Option<ScsiError> {
    match rc {
        Ok(sz) => if sz == 18 {
            spec_sense_error(bytes[2], bytes[12], bytes[13])
        } else {
            None
        },
        Err(_) => None,
    }
}

/// The error to report for a command that failed with `e`, given the answer
/// to the REQUEST SENSE that followed, as the transport gave it.
pub open spec fn upgraded_by<E>(e: Error<E>, rc: Result<usize, Error<E>>, bytes: Seq<u8>) -> Error<
    E,
> {
    match (e, sense_named(rc, bytes)) {
        (Error::CommandFailed, Some(condition)) => Error::Scsi(condition),
        _ => e,
    }
}

/// What a reply of `expected` bytes amounts to, `x` being the outcome of the
/// exchange: an error stands, a reply that is too short is a protocol
/// error.
pub open spec fn completed<E>(x: Result<usize, Error<E>>, expected: nat) -> Result<(), Error<E>> {
    match x {
        Ok(sz) => if sz < expected {
            Err(Error::ProtocolError)
        } else {
            Ok(())
        },
        Err(e) => Err(e),
    }
}

/// What an answer to REQUEST SENSE amounts to. `rc` is what the transport
/// returned and `buf` the buffer it was given. An error of the transport
/// stands; a reply of exactly 18 bytes is the sense data; a reply of any
/// other length is a protocol error.
pub fn sense_reply<E>(rc: Result<usize, Error<E>>, buf: &[u8; 18]) -> (r: Result<
    RequestSenseReply,
    Error<E>,
>)
    ensures
        is_sense_reply(rc, buf@, r),
{
    match rc {
        Err(e) => Err(e),
        Ok(sz) => {
            if sz > 18 {
                return Err(Error::ProtocolError);
            }
            match sense_bytes(slice_subrange(buf.as_slice(), 0, sz)) {
                Ok(bytes) => {
                    assert(bytes@ =~= buf@);
                    Ok(RequestSenseReply::from_bytes(&bytes))
                },
                Err(_) => Err(Error::ProtocolError),
            }
        },
    }
}

/// The error to report for a command that failed with `e`, given the answer
/// to the REQUEST SENSE that followed. Only a refusal by the device is looked
/// into, and only sense data that names a condition replaces it.
pub open spec fn spec_upgraded<E>(e: Error<E>, sense: Result<RequestSenseReply, Error<E>>) -> Error<
    E,
> {
    match (e, sense) {
        (Error::CommandFailed, Ok(reply)) => match spec_sense_error(
            reply.sense_key,
            reply.additional_sense_code,
            reply.additional_sense_code_qualifier,
        ) {
            Some(condition) => Error::Scsi(condition),
            None => Error::CommandFailed,
        },
        _ => e,
    }
}

/// The error to report for a command that failed with `e`, given the answer
/// to the REQUEST SENSE that followed.
pub fn upgraded<E>(e: Error<E>, sense: Result<RequestSenseReply, Error<E>>) -> (r: Error<E>)
    ensures
        r == spec_upgraded(e, sense),
{
    match e {
        Error::CommandFailed => match sense {
            Ok(reply) => match sense_error(
                reply.sense_key,
                reply.additional_sense_code,
                reply.additional_sense_code_qualifier,
            ) {
                Some(condition) => Error::Scsi(condition),
                None => Error::CommandFailed,
            },
            Err(_) => Error::CommandFailed,
        },
        _ => e,
    }
}

/// Whether an error is worth asking the device about: only its refusal of a
/// command comes with sense data that say why.
pub fn needs_sense<E>(e: &Error<E>) -> (r: bool)
    ensures
        r == (*e is CommandFailed),
{
    match e {
        Error::CommandFailed => true,
        _ => false,
    }
}

/// Whether a reply of `sz` bytes fills a structure of `expected` bytes.
pub fn reply_complete<E>(sz: usize, expected: usize) -> (r: Result<(), Error<E>>)
    ensures
        r == completed(Ok::<usize, Error<E>>(sz), expected as nat),
{
    if sz < expected {
        Err(Error::ProtocolError)
    } else {
        Ok(())
    }
}

/// A SCSI device behind a transport.
///
/// The first commands for a device just found are commonly
/// [`ScsiDevice::test_unit_ready`] and then, if it is ready,
/// [`ScsiDevice::inquiry`]. One command is in flight at a time.
pub struct ScsiDevice<T: ScsiTransport> {
    transport: T,
}

impl<T: ScsiTransport> ScsiDevice<T> {
    /// A device behind `transport`.
    pub fn new(transport: T) -> (d: Self)
        ensures
            d.transport() == transport,
    {
        Self { transport }
    }

    /// The transport underneath.
    pub closed spec fn transport(&self) -> T {
        self.transport
    }

    /// Whether a device whose transport is `before` may look into the failure
    /// `e`, leave its transport as `after` and report `r`. A refusal by the
    /// device is followed by one REQUEST SENSE with room for 18 bytes, and
    /// `r` is what the answer makes of the refusal; any other failure is
    /// reported as it is, and the transport is not touched.
    pub open spec fn looked_into(before: T, e: Error<T::Error>, after: T, r: Error<T::Error>) -> bool {
        if e is CommandFailed {
            exists|rc: Result<usize, Error<T::Error>>, bytes: Seq<u8>| #[trigger]
                T::answers(before, RequestSense::wire(), DataView::In(zeros(18)), after, bytes, rc)
                    && r == upgraded_by(e, rc, bytes)
        } else {
            after == before && r == e
        }
    }

    /// Whether a device whose transport is `before` may make the exchange of
    /// the command `cmd` with the data stage `data`, leave its transport as
    /// `after`, find `received` in the buffer of an inbound stage, and come
    /// out with `r`. The transport is handed the command once; what it
    /// returns stands if it is a count, and is looked into if it is a
    /// failure.
    pub open spec fn exchanged(
        before: T,
        cmd: Seq<u8>,
        data: DataView,
        after: T,
        received: Seq<u8>,
        r: Result<usize, Error<T::Error>>,
    ) -> bool {
        exists|mid: T, rc: Result<usize, Error<T::Error>>| #[trigger]
            T::answers(before, cmd, data, mid, received, rc) && match rc {
                Ok(n) => after == mid && r == Ok::<usize, Error<T::Error>>(n),
                Err(e) => r matches Err(reported) && Self::looked_into(mid, e, after, reported),
            }
    }

    /// Whether a device whose transport is `before` may send the command
    /// `cmd`, receive its reply in a buffer that was `room`, leave its
    /// transport as `after`, the buffer as `reply`, and come out with `r`:
    /// one exchange, whose reply must fill the buffer.
    pub open spec fn responded(
        before: T,
        cmd: Seq<u8>,
        room: Seq<u8>,
        after: T,
        reply: Seq<u8>,
        r: Result<(), Error<T::Error>>,
    ) -> bool {
        exists|x: Result<usize, Error<T::Error>>| #[trigger]
            Self::exchanged(before, cmd, DataView::In(room), after, reply, x) && r == completed(
                x,
                room.len(),
            )
    }

    /// Asks the device for its sense data: one REQUEST SENSE with room for
    /// 18 bytes, and what its answer amounts to.
    fn request_sense(&mut self) -> (r: Result<RequestSenseReply, Error<T::Error>>)
        ensures
            exists|rc: Result<usize, Error<T::Error>>, bytes: Seq<u8>| #[trigger]
                T::answers(
                    old(self).transport(),
                    RequestSense::wire(),
                    DataView::In(zeros(18)),
                    final(self).transport(),
                    bytes,
                    rc,
                ) && is_sense_reply(rc, bytes, r),
    {
        let cmd = RequestSense::new().bytes();
        let mut buf = [0u8; 18];
        assert(buf@ =~= zeros(18));
        let rc = self.transport.command(&cmd, DataPhase::In(&mut buf));
        let r = sense_reply(rc, &buf);
        assert(T::answers(
            old(self).transport(),
            RequestSense::wire(),
            DataView::In(zeros(18)),
            self.transport(),
            buf@,
            rc,
        ));
        r
    }

    /// Looks into a refusal: if the device refused the command, asks it for
    /// its sense data and reports the condition that they name. Any other
    /// error stands, and so does the refusal when the sense data cannot be
    /// had or name nothing.
    fn try_upgrade_error(&mut self, e: Error<T::Error>) -> (r: Error<T::Error>)
        ensures
            Self::looked_into(old(self).transport(), e, final(self).transport(), r),
            !(e is CommandFailed) ==> r == e,
            r == e || r is Scsi,
    {
        if needs_sense(&e) {
            let sense = self.request_sense();
            upgraded(e, sense)
        } else {
            e
        }
    }

    /// One exchange: hands `cmd` with its data stage to the transport, and
    /// looks into a failure.
    fn exchange(&mut self, cmd: &[u8], data: DataPhase<'_>) -> (r: Result<usize, Error<T::Error>>)
        ensures
            Self::exchanged(
                old(self).transport(),
                cmd@,
                data.offered(),
                final(self).transport(),
                match data {
                    DataPhase::In(buf) => final(buf)@,
                    _ => Seq::empty(),
                },
                r,
            ),
    {
        let rc = self.transport.command(cmd, data);
        match rc {
            Err(e) => Err(self.try_upgrade_error(e)),
            Ok(n) => Ok(n),
        }
    }

    /// Sends `cmd` and receives its reply into `reply`, which must come back
    /// filled: a shorter reply is a protocol error.
    pub fn command_response(&mut self, cmd: &[u8], reply: &mut [u8]) -> (r: Result<
        (),
        Error<T::Error>,
    >)
        ensures
            Self::responded(
                old(self).transport(),
                cmd@,
                old(reply)@,
                final(self).transport(),
                final(reply)@,
                r,
            ),
    {
        let expected = reply.len();
        match self.exchange(cmd, DataPhase::In(reply)) {
            Err(e) => Err(e),
            Ok(sz) => reply_complete(sz, expected),
        }
    }

    /// Reads the capacity, with a 32-bit block number: enough below 2 TB.
    /// Returns the number of the last block and the size of a block, as the
    /// two big-endian numbers of a reply of 8 bytes to READ CAPACITY (10).
    pub fn read_capacity_10(&mut self) -> (r: Result<(u32, u32), Error<T::Error>>)
        ensures
            exists|reply: Seq<u8>, rr: Result<(), Error<T::Error>>| #[trigger]
                Self::responded(
                    old(self).transport(),
                    ReadCapacity10::wire(),
                    zeros(8),
                    final(self).transport(),
                    reply,
                    rr,
                ) && reply.len() == 8 && match rr {
                    Ok(_) => r matches Ok(c) && c.0 == be_value(reply.subrange(0, 4)) && c.1
                        == be_value(reply.subrange(4, 8)),
                    Err(e) => r == Err::<(u32, u32), Error<T::Error>>(e),
                },
    {
        let cmd = ReadCapacity10::new().bytes();
        let mut buf = [0u8; 8];
        assert(buf@ =~= zeros(8));
        let rr = self.command_response(&cmd, &mut buf);
        assert(Self::responded(
            old(self).transport(),
            ReadCapacity10::wire(),
            zeros(8),
            self.transport(),
            buf@,
            rr,
        ));
        match rr {
            Ok(_) => Ok(ReadCapacity10Reply::from_bytes(&buf).capacity()),
            Err(e) => Err(e),
        }
    }

    /// Reads the capacity, with a 64-bit block number. Not every device
    /// knows this command. Returns the number of the last block and the size
    /// of a block, as the first two big-endian numbers of a reply of 32
    /// bytes to READ CAPACITY (16).
    pub fn read_capacity_16(&mut self) -> (r: Result<(u64, u32), Error<T::Error>>)
        ensures
            exists|reply: Seq<u8>, rr: Result<(), Error<T::Error>>| #[trigger]
                Self::responded(
                    old(self).transport(),
                    ReadCapacity16::wire(),
                    zeros(32),
                    final(self).transport(),
                    reply,
                    rr,
                ) && reply.len() == 32 && match rr {
                    Ok(_) => r matches Ok(c) && c.0 == be_value(reply.subrange(0, 8)) && c.1
                        == be_value(reply.subrange(8, 12)),
                    Err(e) => r == Err::<(u64, u32), Error<T::Error>>(e),
                },
    {
        let cmd = ReadCapacity16::new().bytes();
        let mut buf = [0u8; 32];
        assert(buf@ =~= zeros(32));
        let rr = self.command_response(&cmd, &mut buf);
        assert(Self::responded(
            old(self).transport(),
            ReadCapacity16::wire(),
            zeros(32),
            self.transport(),
            buf@,
            rr,
        ));
        match rr {
            Ok(_) => Ok(ReadCapacity16Reply::from_bytes(&buf).capacity()),
            Err(e) => Err(e),
        }
    }

    /// Asks whether the device supports a command. Few devices know this
    /// command itself. The answer is in the low three bits of the second of
    /// the 4 bytes of the reply to REPORT SUPPORTED OPERATION CODES.
    pub fn report_supported_operation_codes(
        &mut self,
        opcode: u8,
        service_action: Option<u16>,
    ) -> (r: Result<bool, Error<T::Error>>)
        ensures
            exists|reply: Seq<u8>, rr: Result<(), Error<T::Error>>| #[trigger]
                Self::responded(
                    old(self).transport(),
                    ReportSupportedOperationCodes::wire(opcode, service_action),
                    zeros(4),
                    final(self).transport(),
                    reply,
                    rr,
                ) && reply.len() == 4 && match rr {
                    Ok(_) => r == Ok::<bool, Error<T::Error>>(reply[1] & 7 == 3),
                    Err(e) => r == Err::<bool, Error<T::Error>>(e),
                },
    {
        let cmd = ReportSupportedOperationCodes::new(opcode, service_action).bytes();
        let mut buf = [0u8; 4];
        assert(buf@ =~= zeros(4));
        let rr = self.command_response(&cmd, &mut buf);
        assert(Self::responded(
            old(self).transport(),
            ReportSupportedOperationCodes::wire(opcode, service_action),
            zeros(4),
            self.transport(),
            buf@,
            rr,
        ));
        match rr {
            Ok(_) => Ok(ReportSupportedOperationCodesReply::from_bytes(&buf).supported()),
            Err(e) => Err(e),
        }
    }

    /// Asks whether the device is ready: a disk may take a while to spin up.
    /// One exchange of TEST UNIT READY, without data.
    pub fn test_unit_ready(&mut self) -> (r: Result<(), Error<T::Error>>)
        ensures
            exists|x: Result<usize, Error<T::Error>>| #[trigger]
                Self::exchanged(
                    old(self).transport(),
                    TestUnitReady::wire(),
                    DataView::NoData,
                    final(self).transport(),
                    Seq::empty(),
                    x,
                ) && r == completed(x, 0),
    {
        let cmd = TestUnitReady::new().bytes();
        let x = self.exchange(&cmd, DataPhase::NoData);
        assert(Self::exchanged(
            old(self).transport(),
            TestUnitReady::wire(),
            DataView::NoData,
            self.transport(),
            Seq::empty(),
            x,
        ));
        match x {
            Err(e) => Err(e),
            Ok(_) => Ok(()),
        }
    }

    /// Asks the device what it is: a disk, a CD-ROM drive, or something less
    /// common. The kind is in the low five bits of the first byte of the 36
    /// bytes of standard INQUIRY data, and the top bit of the second byte
    /// says whether the media are removable.
    pub fn inquiry(&mut self) -> (r: Result<InquiryData, Error<T::Error>>)
        ensures
            exists|reply: Seq<u8>, rr: Result<(), Error<T::Error>>| #[trigger]
                Self::responded(
                    old(self).transport(),
                    Inquiry::wire(None, 36),
                    zeros(36),
                    final(self).transport(),
                    reply,
                    rr,
                ) && reply.len() == 36 && match rr {
                    Ok(_) => r matches Ok(d) && d.peripheral_type.spec_code() == reply[0] & 0x1F
                        && d.is_removable == (reply[1] & 0x80 != 0),
                    Err(e) => r == Err::<InquiryData, Error<T::Error>>(e),
                },
    {
        let cmd = Inquiry::new(None, 36).bytes();
        let mut buf = [0u8; 36];
        assert(buf@ =~= zeros(36));
        let rr = self.command_response(&cmd, &mut buf);
        assert(Self::responded(
            old(self).transport(),
            Inquiry::wire(None, 36),
            zeros(36),
            self.transport(),
            buf@,
            rr,
        ));
        match rr {
            Ok(_) => Ok(StandardInquiryData::from_bytes(&buf).inquiry_data()),
            Err(e) => Err(e),
        }
    }

    /// Reads the Block Limits page of the vital product data. Few devices
    /// have it. The page is the 64 bytes of the reply to an INQUIRY for page
    /// B0h.
    pub fn block_limits_page(&mut self) -> (r: Result<BlockLimitsPage, Error<T::Error>>)
        ensures
            exists|reply: Seq<u8>, rr: Result<(), Error<T::Error>>| #[trigger]
                Self::responded(
                    old(self).transport(),
                    Inquiry::wire(Some(0xB0u8), 64),
                    zeros(64),
                    final(self).transport(),
                    reply,
                    rr,
                ) && match rr {
                    Ok(_) => r matches Ok(page) && page@ == reply,
                    Err(e) => r == Err::<BlockLimitsPage, Error<T::Error>>(e),
                },
    {
        let cmd = Inquiry::new(Some(0xB0), 64).bytes();
        let mut buf = [0u8; 64];
        assert(buf@ =~= zeros(64));
        let rr = self.command_response(&cmd, &mut buf);
        assert(Self::responded(
            old(self).transport(),
            Inquiry::wire(Some(0xB0u8), 64),
            zeros(64),
            self.transport(),
            buf@,
            rr,
        ));
        match rr {
            Ok(_) => Ok(BlockLimitsPage::from_bytes(&buf)),
            Err(e) => Err(e),
        }
    }

    /// Reads `count` blocks from `start_block` on into `buf`, with a 32-bit
    /// block number. Returns the number of bytes read: one exchange of
    /// READ (10), inbound.
    pub fn read_10(&mut self, start_block: u32, count: u16, buf: &mut [u8]) -> (r: Result<
        usize,
        Error<T::Error>,
    >)
        ensures
            Self::exchanged(
                old(self).transport(),
                Read10::wire(start_block, count),
                DataView::In(old(buf)@),
                final(self).transport(),
                final(buf)@,
                r,
            ),
    {
        let cmd = Read10::new(start_block, count).bytes();
        self.exchange(&cmd, DataPhase::In(buf))
    }

    /// Reads `count` blocks from `start_block` on into `buf`, with a 64-bit
    /// block number. Returns the number of bytes read: one exchange of
    /// READ (16), inbound.
    pub fn read_16(&mut self, start_block: u64, count: u32, buf: &mut [u8]) -> (r: Result<
        usize,
        Error<T::Error>,
    >)
        ensures
            Self::exchanged(
                old(self).transport(),
                Read16::wire(start_block, count),
                DataView::In(old(buf)@),
                final(self).transport(),
                final(buf)@,
                r,
            ),
    {
        let cmd = Read16::new(start_block, count).bytes();
        self.exchange(&cmd, DataPhase::In(buf))
    }

    /// Writes `count` blocks from `start_block` on out of `buf`, with a
    /// 32-bit block number. Returns the number of bytes written: one exchange
    /// of WRITE (10), outbound.
    pub fn write_10(&mut self, start_block: u32, count: u16, buf: &[u8]) -> (r: Result<
        usize,
        Error<T::Error>,
    >)
        ensures
            Self::exchanged(
                old(self).transport(),
                Write10::wire(start_block, count),
                DataView::Out(buf@),
                final(self).transport(),
                Seq::empty(),
                r,
            ),
    {
        let cmd = Write10::new(start_block, count).bytes();
        self.exchange(&cmd, DataPhase::Out(buf))
    }

    /// Writes `count` blocks from `start_block` on out of `buf`, with a
    /// 64-bit block number. Returns the number of bytes written: one exchange
    /// of WRITE (16), outbound.
    pub fn write_16(&mut self, start_block: u64, count: u32, buf: &[u8]) -> (r: Result<
        usize,
        Error<T::Error>,
    >)
        ensures
            Self::exchanged(
                old(self).transport(),
                Write16::wire(start_block, count),
                DataView::Out(buf@),
                final(self).transport(),
                Seq::empty(),
                r,
            ),
    {
        let cmd = Write16::new(start_block, count).bytes();
        self.exchange(&cmd, DataPhase::Out(buf))
    }
}

} // verus!
