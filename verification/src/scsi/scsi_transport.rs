//! What a SCSI device needs of the transport underneath it.

use vstd::prelude::*;

verus! {

/// Data stage of a command.
pub enum DataPhase<'a> {
    /// Device to host, into this buffer.
    In(&'a mut [u8]),
    /// Host to device, from this buffer.
    Out(&'a [u8]),
    /// No data stage.
    NoData,
}

/// Data stage of a command as the transport is handed it: for an inbound
/// stage the buffer as it stands before the command, for an outbound stage
/// the bytes to send.
pub ghost enum DataView {
    In(Seq<u8>),
    Out(Seq<u8>),
    NoData,
}

impl<'a> DataPhase<'a> {
    /// The data stage as the transport is handed it.
    pub open spec fn offered(self) -> DataView {
        match self {
            DataPhase::In(buf) => DataView::In(buf@),
            DataPhase::Out(buf) => DataView::Out(buf@),
            DataPhase::NoData => DataView::NoData,
        }
    }
}

/// A transport that carries one command to the device and its data back or
/// forth.
///
/// Nothing is assumed of how a transport behaves. What it does is only given
/// a name, [`ScsiTransport::answers`], so that the device's contracts can say
/// which commands it was handed and what was made of each answer.
pub trait ScsiTransport: Sized {
    /// What can go wrong in the transport itself.
    type Error;

    /// Whether the transport, being `before`, may take the command `cmd` with
    /// the data stage `data`, become `after`, leave `received` in the buffer
    /// of an inbound stage (nothing, for any other stage) and return `rc`.
    /// A transport that says nothing of itself may do anything; one that
    /// knows more of its device says so here, and its `command` is held to
    /// it.
    open spec fn answers(
        before: Self,
        cmd: Seq<u8>,
        data: DataView,
        after: Self,
        received: Seq<u8>,
        rc: Result<usize, Error<Self::Error>>,
    ) -> bool {
        true
    }

    /// Sends `cmd`, moves the data of `data`, and returns the number of bytes
    /// moved.
    fn command(&mut self, cmd: &[u8], data: DataPhase<'_>) -> (rc: Result<
        usize,
        Error<Self::Error>,
    >)
        ensures
            Self::answers(
                *old(self),
                cmd@,
                data.offered(),
                *final(self),
                match data {
                    DataPhase::In(buf) => final(buf)@,
                    _ => Seq::empty(),
                },
                rc,
            ),
    ;
}

/// Conditions that a device reports through its sense data.
#[derive(Clone, Copy, Debug, PartialEq, Eq, Structural)]
pub enum ScsiError {
    BecomingReady,
    StartUnitRequired,
    ManualInterventionRequired,
    FormatInProgress,
    SelfTestInProgress,
    PowerCycleRequired,
    Overheat,
    EnclosureDegraded,
    WriteError,
    WriteReallocationFailed,
    UnrecoveredReadError,
    ReadRetriesExhausted,
    ReadErrorTooLong,
    ReadReallocationFailed,
    LogicalBlockNotFound,
    RecordNotFound,
    InvalidFieldInParameterList,
    ParameterNotSupported,
    ParameterValueInvalid,
    LogicalUnitSelfTestFailed,
    SelfTestFailed,
    PositioningError,
    ParameterListLengthError,
    MiscompareDuringVerify,
    InvalidCommandOperationCode,
    LogicalBlockAddressOutOfRange,
    InvalidFieldInCDB,
    LogicalUnitNotSupported,
    NotReady,
    MediumError,
    HardwareError,
    IllegalRequest,
    UnitAttention,
    DataProtect,
    BlankCheck,
    VendorSpecific,
    CopyAborted,
    Aborted,
    VolumeOverflow,
    Miscompare,
}

/// Everything that can go wrong with a command.
#[derive(Debug, PartialEq, Eq)]
pub enum Error<T> {
    /// The device refused the command and has sense data that says why.
    CommandFailed,
    /// A reply was shorter than its fixed structure.
    ProtocolError,
    /// The device refused the command for this reason.
    Scsi(ScsiError),
    /// The transport failed.
    Transport(T),
}

} // verus!
