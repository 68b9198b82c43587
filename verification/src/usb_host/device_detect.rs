//! Watching the root port for a device that comes or goes.

use vstd::prelude::*;
use crate::usb_host::host_controller::{DeviceStatus, UsbSpeed};
use crate::usb_host::registers::{HwOp, InterruptSet};

verus! {

/// The port state that the speed field of the SIE status stands for.
pub open spec fn status_of(speed: u8) -> DeviceStatus {
    if speed == 0 {
        DeviceStatus::Absent
    } else if speed == 1 {
        DeviceStatus::Present(UsbSpeed::Low1_5)
    } else {
        DeviceStatus::Present(UsbSpeed::Full12)
    }
}

/// The operation that every look at the port ends with: the interrupt for
/// connection and disconnection is enabled again.
pub open spec fn watch_ops() -> Seq<HwOp> {
    seq![
        HwOp::EnableInterrupts {
            sources: InterruptSet { host_conn_dis: true, ..InterruptSet::spec_none() },
        },
    ]
}

/// The endless sequence of port states, one look at a time. It yields a
/// state only when it differs from the last one yielded; a new watcher starts
/// from the assumption that nothing is attached.
#[derive(Clone, Copy, Debug)]
pub struct Rp2040DeviceDetect {
    status: DeviceStatus,
}

impl Rp2040DeviceDetect {
    /// The state last yielded.
    pub closed spec fn last(&self) -> DeviceStatus {
        self.status
    }

    /// A watcher that has reported nothing yet.
    pub fn new() -> (d: Self)
        ensures
            d.last() == DeviceStatus::Absent,
    {
        Self { status: DeviceStatus::Absent }
    }

    /// One look at the port: `speed` is the speed field of the SIE status as
    /// just read. Returns the port's state if it has changed since the last
    /// state returned, `None` if it has not.
    pub fn poll_next(&mut self, speed: u8, ops: &mut Vec<HwOp>) -> (r: Option<DeviceStatus>)
        ensures
            final(self).last() == status_of(speed),
            r == if status_of(speed) != old(self).last() {
                Some(status_of(speed))
            } else {
                None
            },
            final(ops)@ == old(ops)@ + watch_ops(),
    {
        let device_status = if speed == 0 {
            DeviceStatus::Absent
        } else if speed == 1 {
            DeviceStatus::Present(UsbSpeed::Low1_5)
        } else {
            DeviceStatus::Present(UsbSpeed::Full12)
        };
        let mut sources = InterruptSet::none();
        sources.host_conn_dis = true;
        ops.push(HwOp::EnableInterrupts { sources });
        if device_status != self.status {
            self.status = device_status;
            Some(device_status)
        } else {
            None
        }
    }
}

} // verus!
