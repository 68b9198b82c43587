use cotton::scsi::big_endian::{u16_to_be, u32_from_be, u32_to_be, u64_from_be, u64_to_be};
use cotton::scsi::scsi_device::{
    needs_sense, reply_complete, sense_error, sense_reply, upgraded, BlockLimitsPage, Inquiry, InquiryData,
    PeripheralType, Read10, Read16, ReadCapacity10, ReadCapacity10Reply, ReadCapacity16,
    ReadCapacity16Reply, ReportSupportedOperationCodes, ReportSupportedOperationCodesReply,
    RequestSense, RequestSenseReply, ScsiDevice, StandardInquiryData, TestUnitReady, Write10,
    Write16,
};
use cotton::scsi::scsi_transport::{DataPhase, Error, ScsiError, ScsiTransport};

#[derive(Debug, PartialEq, Eq, Clone, Copy)]
struct Broken;

type E = Error<Broken>;

/// A transport that records what it is asked and answers from a script.
struct Script {
    /// For each command expected: its bytes, and the answer.
    steps: Vec<(Vec<u8>, Answer)>,
    written: Vec<Vec<u8>>,
}

enum Answer {
    Reply(Vec<u8>),
    Count(usize),
    Fail(E),
}

impl Script {
    fn new(steps: Vec<(Vec<u8>, Answer)>) -> Self {
        Script { steps, written: vec![] }
    }
}

impl ScsiTransport for Script {
    type Error = Broken;

    fn command(&mut self, cmd: &[u8], data: DataPhase<'_>) -> Result<usize, E> {
        assert!(!self.steps.is_empty(), "unexpected command {:x?}", cmd);
        let (expected, answer) = self.steps.remove(0);
        assert_eq!(cmd, &expected[..]);
        match (answer, data) {
            (Answer::Reply(bytes), DataPhase::In(buf)) => {
                let n = bytes.len().min(buf.len());
                buf[..n].copy_from_slice(&bytes[..n]);
                Ok(n)
            }
            (Answer::Count(n), DataPhase::Out(buf)) => {
                self.written.push(buf.to_vec());
                Ok(n)
            }
            (Answer::Count(n), _) => Ok(n),
            (Answer::Fail(e), _) => Err(e),
            (Answer::Reply(_), _) => panic!("a reply without an inbound data stage"),
        }
    }
}

const REQUEST_SENSE: [u8; 6] = [3, 0, 0, 0, 18, 0];

fn sense(key: u8, code: u8, qualifier: u8) -> Vec<u8> {
    let mut s = vec![0x70, 0, key, 0, 0, 0, 0, 10, 0, 0, 0, 0, code, qualifier, 0, 0, 0, 0];
    s[15] = 0x80;
    s
}

#[test]
fn big_endian_bytes() {
    assert_eq!(u16_to_be(0x1234), [0x12, 0x34]);
    assert_eq!(u16_to_be(0), [0, 0]);
    assert_eq!(u16_to_be(0xffff), [0xff, 0xff]);
    assert_eq!(u32_to_be(0x1234_5678), [0x12, 0x34, 0x56, 0x78]);
    assert_eq!(u32_to_be(1), [0, 0, 0, 1]);
    assert_eq!(u32_to_be(u32::MAX), [0xff; 4]);
    assert_eq!(u64_to_be(0x0102_0304_0506_0708), [1, 2, 3, 4, 5, 6, 7, 8]);
    assert_eq!(u64_to_be(u64::MAX), [0xff; 8]);
    assert_eq!(u32_from_be(&[0x12, 0x34, 0x56, 0x78]), 0x1234_5678);
    assert_eq!(u32_from_be(&[0xff; 4]), u32::MAX);
    assert_eq!(u64_from_be(&[1, 2, 3, 4, 5, 6, 7, 8]), 0x0102_0304_0506_0708);
    assert_eq!(u64_from_be(&[0xff; 8]), u64::MAX);
    for x in [0u32, 1, 255, 256, 65535, 65536, 0xdead_beef, u32::MAX] {
        assert_eq!(u32_to_be(x), x.to_be_bytes());
        assert_eq!(u32_from_be(&u32_to_be(x)), x);
        let y = (x as u64) << 29 | x as u64;
        assert_eq!(u64_to_be(y), y.to_be_bytes());
        assert_eq!(u64_from_be(&u64_to_be(y)), y);
        assert_eq!(u16_to_be(x as u16), (x as u16).to_be_bytes());
    }
}

#[test]
fn commands_have_these_bytes() {
    assert_eq!(
        Read10::new(0x0102_0304, 0x0506).bytes(),
        [0x28, 0, 1, 2, 3, 4, 0, 5, 6, 0]
    );
    assert_eq!(
        Write10::new(0x0102_0304, 0x0506).bytes(),
        [0x2A, 0, 1, 2, 3, 4, 0, 5, 6, 0]
    );
    assert_eq!(
        Read16::new(0x0102_0304_0506_0708, 0x090a_0b0c).bytes(),
        [0x88, 0, 1, 2, 3, 4, 5, 6, 7, 8, 9, 10, 11, 12, 0, 0]
    );
    assert_eq!(
        Write16::new(0x0102_0304_0506_0708, 0x090a_0b0c).bytes(),
        [0x8A, 0, 1, 2, 3, 4, 5, 6, 7, 8, 9, 10, 11, 12, 0, 0]
    );
    assert_eq!(ReadCapacity10::new().bytes(), [0x25, 0, 0, 0, 0, 0, 0, 0, 0, 0]);
    assert_eq!(
        ReadCapacity16::new().bytes(),
        [0x9E, 0x10, 0, 0, 0, 0, 0, 0, 0, 0, 0, 0, 0, 32, 0, 0]
    );
    assert_eq!(TestUnitReady::new().bytes(), [0; 6]);
    assert_eq!(RequestSense::new().bytes(), REQUEST_SENSE);
    assert_eq!(
        ReportSupportedOperationCodes::new(0x88, None).bytes(),
        [0xA3, 0x0C, 3, 0x88, 0, 0, 0, 0, 0, 4, 0, 0]
    );
    assert_eq!(
        ReportSupportedOperationCodes::new(0x9E, Some(0x1011)).bytes(),
        [0xA3, 0x0C, 3, 0x9E, 0x10, 0x11, 0, 0, 0, 4, 0, 0]
    );
    assert_eq!(Inquiry::new(None, 36).bytes(), [0x12, 0, 0, 0, 36, 0]);
    assert_eq!(Inquiry::new(Some(0xB0), 64).bytes(), [0x12, 1, 0xB0, 0, 64, 0]);
    assert_eq!(Inquiry::new(Some(0), 0x1234).bytes(), [0x12, 1, 0, 0x12, 0x34, 0]);
}

#[test]
fn peripheral_types_are_numbered_from_zero() {
    assert_eq!(PeripheralType::from_code(0), PeripheralType::Disk);
    assert_eq!(PeripheralType::from_code(5), PeripheralType::Optical);
    assert_eq!(PeripheralType::from_code(0x0c), PeripheralType::StorageArray);
    assert_eq!(PeripheralType::from_code(0x1e), PeripheralType::WellKnownUnit);
    assert_eq!(PeripheralType::from_code(0x1f), PeripheralType::Other);
    // the peripheral qualifier in the upper bits does not count
    assert_eq!(PeripheralType::from_code(0xe5), PeripheralType::Optical);
    assert_eq!(PeripheralType::from_code(0x20), PeripheralType::Disk);
    for code in 0..=255u8 {
        assert_eq!(PeripheralType::from_code(code).code(), code & 0x1f);
    }
    assert_eq!(PeripheralType::default(), PeripheralType::Other);
    assert_eq!(
        InquiryData::default(),
        InquiryData { peripheral_type: PeripheralType::Other, is_removable: false }
    );
}

#[test]
fn replies_are_read_field_by_field() {
    let r = ReadCapacity10Reply::from_bytes(&[0, 0x10, 0, 0xff, 0, 0, 2, 0]);
    assert_eq!(r.lba, [0, 0x10, 0, 0xff]);
    assert_eq!(r.block_size, [0, 0, 2, 0]);
    assert_eq!(r.capacity(), (0x0010_00ff, 512));
    let mut b = [0u8; 32];
    for (i, x) in b.iter_mut().enumerate() {
        *x = i as u8 + 1;
    }
    let r = ReadCapacity16Reply::from_bytes(&b);
    assert_eq!(r.lba, [1, 2, 3, 4, 5, 6, 7, 8]);
    assert_eq!(r.block_size, [9, 10, 11, 12]);
    assert_eq!(r.flags, [13, 14]);
    assert_eq!(r.lowest_aligned_lba, [15, 16]);
    assert_eq!(&r.reserved[..], &b[16..]);
    assert_eq!(r.capacity(), (0x0102_0304_0506_0708, 0x090a_0b0c));
    let s = RequestSenseReply::from_bytes(&[
        1, 2, 3, 4, 5, 6, 7, 8, 9, 10, 11, 12, 13, 14, 15, 16, 17, 18,
    ]);
    assert_eq!((s.response_code, s.reserved1, s.sense_key), (1, 2, 3));
    assert_eq!(s.information, [4, 5, 6, 7]);
    assert_eq!(s.additional_length, 8);
    assert_eq!(s.command_specific_information, [9, 10, 11, 12]);
    assert_eq!((s.additional_sense_code, s.additional_sense_code_qualifier, s.fru_code), (13, 14, 15));
    assert_eq!(s.sense_key_specific, [16, 17, 18]);
    let r = ReportSupportedOperationCodesReply::from_bytes(&[9, 0x83, 0, 16]);
    assert_eq!((r.reserved, r.support, r.cdb_size), (9, 0x83, [0, 16]));
    assert!(r.supported());
    for (support, expected) in [(0u8, false), (1, false), (3, true), (5, false), (0xfb, true), (7, false)] {
        assert_eq!(
            ReportSupportedOperationCodesReply::from_bytes(&[0, support, 0, 0]).supported(),
            expected
        );
    }
    let mut b = [0u8; 36];
    for (i, x) in b.iter_mut().enumerate() {
        *x = 0x80 + i as u8;
    }
    let d = StandardInquiryData::from_bytes(&b);
    assert_eq!(d.peripheral_device_type, 0x80);
    assert_eq!(d.removable, 0x81);
    assert_eq!((d.version, d.data_format, d.additional_length), (0x82, 0x83, 0x84));
    assert_eq!(d.flags, [0x85, 0x86, 0x87]);
    assert_eq!(&d.vendor_id[..], &b[8..16]);
    assert_eq!(&d.product_id[..], &b[16..32]);
    assert_eq!(&d.product_revision[..], &b[32..36]);
    assert_eq!(
        d.inquiry_data(),
        InquiryData { peripheral_type: PeripheralType::Disk, is_removable: true }
    );
    b[0] = 0x05;
    b[1] = 0x7f;
    assert_eq!(
        StandardInquiryData::from_bytes(&b).inquiry_data(),
        InquiryData { peripheral_type: PeripheralType::Optical, is_removable: false }
    );
}

#[test]
fn block_limits_page_holds_its_64_bytes() {
    let mut b = [0u8; 64];
    for (i, x) in b.iter_mut().enumerate() {
        *x = (i as u8).wrapping_mul(5).wrapping_add(1);
    }
    let page = BlockLimitsPage::from_bytes(&b);
    assert_eq!(page, BlockLimitsPage::from_bytes(&b));
    for i in 0..64 {
        let mut other = b;
        other[i] ^= 0x40;
        assert_ne!(page, BlockLimitsPage::from_bytes(&other), "byte {}", i);
    }
    assert_eq!(BlockLimitsPage::default(), BlockLimitsPage::from_bytes(&[0; 64]));
}

#[test]
fn sense_data_name_conditions_most_specific_first() {
    let triples = [
        (2, 4, 1, ScsiError::BecomingReady),
        (2, 4, 2, ScsiError::StartUnitRequired),
        (2, 4, 3, ScsiError::ManualInterventionRequired),
        (2, 4, 4, ScsiError::FormatInProgress),
        (2, 4, 9, ScsiError::SelfTestInProgress),
        (2, 4, 0x22, ScsiError::PowerCycleRequired),
        (1, 0x0B, 0x01, ScsiError::Overheat),
        (1, 0x0B, 0x02, ScsiError::EnclosureDegraded),
        (3, 0x0C, 0x00, ScsiError::WriteError),
        (3, 0x0C, 0x02, ScsiError::WriteReallocationFailed),
        (1, 0x11, 0x00, ScsiError::UnrecoveredReadError),
        (1, 0x11, 0x01, ScsiError::ReadRetriesExhausted),
        (1, 0x11, 0x02, ScsiError::ReadErrorTooLong),
        (3, 0x11, 0x04, ScsiError::ReadReallocationFailed),
        (3, 0x14, 0x00, ScsiError::LogicalBlockNotFound),
        (3, 0x14, 0x01, ScsiError::RecordNotFound),
        (5, 0x26, 0x00, ScsiError::InvalidFieldInParameterList),
        (5, 0x26, 0x01, ScsiError::ParameterNotSupported),
        (5, 0x26, 0x02, ScsiError::ParameterValueInvalid),
        (4, 0x3E, 0x03, ScsiError::LogicalUnitSelfTestFailed),
        (4, 0x42, 0x00, ScsiError::SelfTestFailed),
    ];
    for (key, code, qualifier, condition) in triples {
        assert_eq!(sense_error(key, code, qualifier), Some(condition));
    }
    let pairs = [
        (3, 0x14, ScsiError::PositioningError),
        (5, 0x1A, ScsiError::ParameterListLengthError),
        (0xE, 0x1D, ScsiError::MiscompareDuringVerify),
        (5, 0x20, ScsiError::InvalidCommandOperationCode),
        (0xD, 0x21, ScsiError::LogicalBlockAddressOutOfRange),
        (5, 0x24, ScsiError::InvalidFieldInCDB),
        (5, 0x25, ScsiError::LogicalUnitNotSupported),
    ];
    for (key, code, condition) in pairs {
        assert_eq!(sense_error(key, code, 0x77), Some(condition));
        assert_eq!(sense_error(key, code, 0xff), Some(condition));
    }
    let keys = [
        (2, ScsiError::NotReady),
        (3, ScsiError::MediumError),
        (4, ScsiError::HardwareError),
        (5, ScsiError::IllegalRequest),
        (6, ScsiError::UnitAttention),
        (7, ScsiError::DataProtect),
        (8, ScsiError::BlankCheck),
        (9, ScsiError::VendorSpecific),
        (10, ScsiError::CopyAborted),
        (11, ScsiError::Aborted),
        (13, ScsiError::VolumeOverflow),
        (14, ScsiError::Miscompare),
    ];
    for (key, condition) in keys {
        assert_eq!(sense_error(key, 0xEE, 0xEE), Some(condition));
    }
    for key in [0u8, 1, 12, 15, 16, 255] {
        assert_eq!(sense_error(key, 0xEE, 0xEE), None);
    }
    // the pair wins over the key, the triple over the pair
    assert_eq!(sense_error(3, 0x14, 0x02), Some(ScsiError::PositioningError));
    assert_eq!(sense_error(3, 0x14, 0x01), Some(ScsiError::RecordNotFound));
    assert_eq!(sense_error(3, 0x15, 0x01), Some(ScsiError::MediumError));
    assert_eq!(sense_error(2, 4, 5), Some(ScsiError::NotReady));
    assert_eq!(sense_error(1, 0x0B, 0x03), None);
    assert_eq!(sense_error(0xE, 0x1D, 0), Some(ScsiError::MiscompareDuringVerify));
    assert_eq!(sense_error(0xD, 0x22, 0), Some(ScsiError::VolumeOverflow));
}

#[test]
fn sense_reply_must_be_exactly_18_bytes() {
    let mut buf = [0u8; 18];
    buf.copy_from_slice(&sense(5, 0x24, 0));
    let reply = sense_reply::<Broken>(Ok(18), &buf).unwrap();
    assert_eq!(
        (reply.sense_key, reply.additional_sense_code, reply.additional_sense_code_qualifier),
        (5, 0x24, 0)
    );
    assert_eq!(reply.response_code, 0x70);
    assert_eq!(reply.sense_key_specific, [0x80, 0, 0]);
    for sz in [0usize, 1, 17, 19, 100, usize::MAX] {
        assert_eq!(sense_reply::<Broken>(Ok(sz), &buf).unwrap_err(), Error::ProtocolError);
    }
    assert_eq!(
        sense_reply(Err(Error::Transport(Broken)), &buf).unwrap_err(),
        Error::Transport(Broken)
    );
    assert_eq!(
        sense_reply::<Broken>(Err(Error::CommandFailed), &buf).unwrap_err(),
        Error::CommandFailed
    );
}

#[test]
fn only_a_refusal_with_telling_sense_data_is_upgraded() {
    let telling = RequestSenseReply::from_bytes(&{
        let mut b = [0u8; 18];
        b.copy_from_slice(&sense(2, 4, 1));
        b
    });
    let silent = RequestSenseReply::from_bytes(&[0; 18]);
    assert_eq!(
        upgraded::<Broken>(Error::CommandFailed, Ok(telling)),
        Error::Scsi(ScsiError::BecomingReady)
    );
    assert_eq!(upgraded::<Broken>(Error::CommandFailed, Ok(silent)), Error::CommandFailed);
    assert_eq!(
        upgraded::<Broken>(Error::CommandFailed, Err(Error::ProtocolError)),
        Error::CommandFailed
    );
    assert_eq!(
        upgraded(Error::CommandFailed, Err(Error::Transport(Broken))),
        Error::CommandFailed
    );
    assert_eq!(upgraded::<Broken>(Error::ProtocolError, Ok(telling)), Error::ProtocolError);
    assert_eq!(upgraded(Error::Transport(Broken), Ok(telling)), Error::Transport(Broken));
    assert_eq!(
        upgraded::<Broken>(Error::Scsi(ScsiError::NotReady), Ok(telling)),
        Error::Scsi(ScsiError::NotReady)
    );
}

#[test]
fn only_a_refusal_is_asked_about() {
    assert!(needs_sense::<Broken>(&Error::CommandFailed));
    assert!(!needs_sense::<Broken>(&Error::ProtocolError));
    assert!(!needs_sense(&Error::Transport(Broken)));
    assert!(!needs_sense::<Broken>(&Error::Scsi(ScsiError::NotReady)));
}

#[test]
fn short_reply_is_a_protocol_error() {
    assert_eq!(reply_complete::<Broken>(8, 8), Ok(()));
    assert_eq!(reply_complete::<Broken>(9, 8), Ok(()));
    assert_eq!(reply_complete::<Broken>(7, 8), Err(Error::ProtocolError));
    assert_eq!(reply_complete::<Broken>(0, 0), Ok(()));
    assert_eq!(reply_complete::<Broken>(0, 1), Err(Error::ProtocolError));
}

#[test]
fn device_reads_capacity() {
    let script = Script::new(vec![(
        ReadCapacity10::new().bytes().to_vec(),
        Answer::Reply(vec![0, 0x0f, 0xff, 0xff, 0, 0, 2, 0]),
    )]);
    let mut device = ScsiDevice::new(script);
    assert_eq!(device.read_capacity_10(), Ok((0x000f_ffff, 512)));
    let mut reply = vec![0, 0, 0, 1, 0, 0, 0, 0, 0, 0, 0x10, 0];
    reply.resize(32, 0);
    let script = Script::new(vec![(ReadCapacity16::new().bytes().to_vec(), Answer::Reply(reply))]);
    let mut device = ScsiDevice::new(script);
    assert_eq!(device.read_capacity_16(), Ok((0x1_0000_0000, 4096)));
}

#[test]
fn device_reports_short_replies() {
    let script = Script::new(vec![(
        ReadCapacity10::new().bytes().to_vec(),
        Answer::Reply(vec![0, 0x0f, 0xff, 0xff, 0, 0, 2]),
    )]);
    let mut device = ScsiDevice::new(script);
    assert_eq!(device.read_capacity_10(), Err(Error::ProtocolError));
    let script = Script::new(vec![(Inquiry::new(None, 36).bytes().to_vec(), Answer::Reply(vec![0; 35]))]);
    let mut device = ScsiDevice::new(script);
    assert_eq!(device.inquiry(), Err(Error::ProtocolError));
    let script = Script::new(vec![(vec![1, 2, 3], Answer::Reply(vec![1, 2]))]);
    let mut device = ScsiDevice::new(script);
    let mut reply = [0u8; 3];
    assert_eq!(device.command_response(&[1, 2, 3], &mut reply), Err(Error::ProtocolError));
    let script = Script::new(vec![(vec![1, 2, 3], Answer::Reply(vec![7, 8, 9, 10]))]);
    let mut device = ScsiDevice::new(script);
    assert_eq!(device.command_response(&[1, 2, 3], &mut reply), Ok(()));
    assert_eq!(reply, [7, 8, 9]);
}

#[test]
fn device_asks_for_sense_data_after_a_refusal() {
    let script = Script::new(vec![
        (TestUnitReady::new().bytes().to_vec(), Answer::Fail(Error::CommandFailed)),
        (REQUEST_SENSE.to_vec(), Answer::Reply(sense(2, 4, 1))),
    ]);
    let mut device = ScsiDevice::new(script);
    assert_eq!(device.test_unit_ready(), Err(Error::Scsi(ScsiError::BecomingReady)));
    // sense data that name nothing leave the refusal as it is
    let script = Script::new(vec![
        (TestUnitReady::new().bytes().to_vec(), Answer::Fail(Error::CommandFailed)),
        (REQUEST_SENSE.to_vec(), Answer::Reply(sense(0, 0, 0))),
    ]);
    let mut device = ScsiDevice::new(script);
    assert_eq!(device.test_unit_ready(), Err(Error::CommandFailed));
    // and so do sense data that cannot be had, or are cut short
    let script = Script::new(vec![
        (ReadCapacity10::new().bytes().to_vec(), Answer::Fail(Error::CommandFailed)),
        (REQUEST_SENSE.to_vec(), Answer::Fail(Error::Transport(Broken))),
    ]);
    let mut device = ScsiDevice::new(script);
    assert_eq!(device.read_capacity_10(), Err(Error::CommandFailed));
    let script = Script::new(vec![
        (ReadCapacity10::new().bytes().to_vec(), Answer::Fail(Error::CommandFailed)),
        (REQUEST_SENSE.to_vec(), Answer::Reply(sense(2, 4, 1)[..17].to_vec())),
    ]);
    let mut device = ScsiDevice::new(script);
    assert_eq!(device.read_capacity_10(), Err(Error::CommandFailed));
}

#[test]
fn device_passes_other_errors_on_without_asking() {
    let script = Script::new(vec![(
        TestUnitReady::new().bytes().to_vec(),
        Answer::Fail(Error::Transport(Broken)),
    )]);
    let mut device = ScsiDevice::new(script);
    assert_eq!(device.test_unit_ready(), Err(Error::Transport(Broken)));
    let script = Script::new(vec![(
        Inquiry::new(None, 36).bytes().to_vec(),
        Answer::Fail(Error::ProtocolError),
    )]);
    let mut device = ScsiDevice::new(script);
    assert_eq!(device.inquiry(), Err(Error::ProtocolError));
    let script = Script::new(vec![(TestUnitReady::new().bytes().to_vec(), Answer::Count(0))]);
    let mut device = ScsiDevice::new(script);
    assert_eq!(device.test_unit_ready(), Ok(()));
}

#[test]
fn device_inquiry_and_pages() {
    let mut reply = vec![0u8; 36];
    reply[0] = 0x05;
    reply[1] = 0x80;
    let script = Script::new(vec![(Inquiry::new(None, 36).bytes().to_vec(), Answer::Reply(reply))]);
    let mut device = ScsiDevice::new(script);
    assert_eq!(
        device.inquiry(),
        Ok(InquiryData { peripheral_type: PeripheralType::Optical, is_removable: true })
    );
    let mut page = [0u8; 64];
    for (i, x) in page.iter_mut().enumerate() {
        *x = i as u8;
    }
    let script = Script::new(vec![(
        Inquiry::new(Some(0xB0), 64).bytes().to_vec(),
        Answer::Reply(page.to_vec()),
    )]);
    let mut device = ScsiDevice::new(script);
    assert_eq!(device.block_limits_page(), Ok(BlockLimitsPage::from_bytes(&page)));
    for (support, expected) in [(3u8, true), (1, false)] {
        let script = Script::new(vec![(
            ReportSupportedOperationCodes::new(0x88, Some(2)).bytes().to_vec(),
            Answer::Reply(vec![0, support, 0, 16]),
        )]);
        let mut device = ScsiDevice::new(script);
        assert_eq!(device.report_supported_operation_codes(0x88, Some(2)), Ok(expected));
    }
}

#[test]
fn device_reads_and_writes_blocks() {
    let data: Vec<u8> = (0..1024u32).map(|i| (i * 13) as u8).collect();
    let script = Script::new(vec![
        (Read10::new(7, 2).bytes().to_vec(), Answer::Reply(data.clone())),
        (Read16::new(1 << 40, 2).bytes().to_vec(), Answer::Reply(data[..512].to_vec())),
        (Read10::new(8, 1).bytes().to_vec(), Answer::Fail(Error::CommandFailed)),
        (REQUEST_SENSE.to_vec(), Answer::Reply(sense(3, 0x11, 0))),
        (Read16::new(9, 1).bytes().to_vec(), Answer::Fail(Error::CommandFailed)),
        (REQUEST_SENSE.to_vec(), Answer::Reply(sense(0xD, 0x21, 0))),
    ]);
    let mut device = ScsiDevice::new(script);
    let mut buf = vec![0u8; 1024];
    assert_eq!(device.read_10(7, 2, &mut buf), Ok(1024));
    assert_eq!(buf, data);
    let mut buf = vec![0u8; 1024];
    assert_eq!(device.read_16(1 << 40, 2, &mut buf), Ok(512));
    assert_eq!(&buf[..512], &data[..512]);
    assert_eq!(device.read_10(8, 1, &mut buf), Err(Error::Scsi(ScsiError::MediumError)));
    assert_eq!(
        device.read_16(9, 1, &mut buf),
        Err(Error::Scsi(ScsiError::LogicalBlockAddressOutOfRange))
    );
    let script = Script::new(vec![
        (Write10::new(7, 2).bytes().to_vec(), Answer::Count(1024)),
        (Write16::new(1 << 40, 1).bytes().to_vec(), Answer::Count(512)),
        (Write10::new(8, 1).bytes().to_vec(), Answer::Fail(Error::CommandFailed)),
        (REQUEST_SENSE.to_vec(), Answer::Reply(sense(3, 0x0C, 0))),
        (Write16::new(9, 1).bytes().to_vec(), Answer::Fail(Error::Transport(Broken))),
    ]);
    let mut device = ScsiDevice::new(script);
    assert_eq!(device.write_10(7, 2, &data), Ok(1024));
    assert_eq!(device.write_16(1 << 40, 1, &data[..512]), Ok(512));
    assert_eq!(device.write_10(8, 1, &data), Err(Error::Scsi(ScsiError::WriteError)));
    assert_eq!(device.write_16(9, 1, &data), Err(Error::Transport(Broken)));
}
