//! The events that describe network interfaces and their addresses.

use vstd::prelude::*;

verus! {

/// State of an interface, as the system reports it.
#[derive(Clone, Copy, Debug, PartialEq, Eq, Structural)]
pub struct LinkFlags {
    pub up: bool,
    pub running: bool,
    pub loopback: bool,
    pub point_to_point: bool,
    pub broadcast: bool,
    pub multicast: bool,
}

/// State of an interface, as a set of flags in one word.
#[derive(Clone, Copy, Debug, PartialEq, Eq, Structural)]
pub struct Flags {
    pub bits: u32,
}

/// The interface is administratively up.
pub const UP: u32 = 0x1;

/// The interface can broadcast.
pub const BROADCAST: u32 = 0x2;

/// The interface is a loopback.
pub const LOOPBACK: u32 = 0x8;

/// The interface is a point-to-point link.
pub const POINTTOPOINT: u32 = 0x10;

/// The interface is operational.
pub const RUNNING: u32 = 0x40;

/// The interface can multicast.
pub const MULTICAST: u32 = 0x1000;

/// The word with `flag` if `set`, else the empty word.
pub open spec fn flag_if(set: bool, flag: u32) -> u32 {
    if set {
        flag
    } else {
        0
    }
}

impl Flags {
    /// Whether every flag of `other` is set.
    pub open spec fn spec_contains(self, other: u32) -> bool {
        self.bits & other == other
    }

    /// Whether every flag of `other` is set.
    #[verifier::when_used_as_spec(spec_contains)]
    pub fn contains(self, other: u32) -> (r: bool)
        ensures
            r == self.spec_contains(other),
    {
        self.bits & other == other
    }

    /// The flags that stand for a state.
    pub open spec fn spec_from_link(link: LinkFlags) -> Flags {
        Flags {
            bits: flag_if(link.up, UP) | flag_if(link.running, RUNNING) | flag_if(
                link.loopback,
                LOOPBACK,
            ) | flag_if(link.point_to_point, POINTTOPOINT) | flag_if(link.broadcast, BROADCAST)
                | flag_if(link.multicast, MULTICAST),
        }
    }

    /// The flags that stand for a state: each of the six properties has its
    /// own flag, set if and only if the property holds.
    #[verifier::when_used_as_spec(spec_from_link)]
    pub fn from_link(link: LinkFlags) -> (f: Flags)
        ensures
            f == Self::spec_from_link(link),
            f.spec_contains(UP) == link.up,
            f.spec_contains(RUNNING) == link.running,
            f.spec_contains(LOOPBACK) == link.loopback,
            f.spec_contains(POINTTOPOINT) == link.point_to_point,
            f.spec_contains(BROADCAST) == link.broadcast,
            f.spec_contains(MULTICAST) == link.multicast,
    {
        let up: u32 = if link.up { UP } else { 0 };
        let running: u32 = if link.running { RUNNING } else { 0 };
        let loopback: u32 = if link.loopback { LOOPBACK } else { 0 };
        let point_to_point: u32 = if link.point_to_point { POINTTOPOINT } else { 0 };
        let broadcast: u32 = if link.broadcast { BROADCAST } else { 0 };
        let multicast: u32 = if link.multicast { MULTICAST } else { 0 };
        let bits = up | running | loopback | point_to_point | broadcast | multicast;
        assert({
            &&& (bits & 0x1 == 0x1) == (up == 0x1)
            &&& (bits & 0x40 == 0x40) == (running == 0x40)
            &&& (bits & 0x8 == 0x8) == (loopback == 0x8)
            &&& (bits & 0x10 == 0x10) == (point_to_point == 0x10)
            &&& (bits & 0x2 == 0x2) == (broadcast == 0x2)
            &&& (bits & 0x1000 == 0x1000) == (multicast == 0x1000)
        }) by (bit_vector)
            requires
                bits == up | running | loopback | point_to_point | broadcast | multicast,
                up == 0 || up == 0x1,
                running == 0 || running == 0x40,
                loopback == 0 || loopback == 0x8,
                point_to_point == 0 || point_to_point == 0x10,
                broadcast == 0 || broadcast == 0x2,
                multicast == 0 || multicast == 0x1000,
        ;
        Flags { bits }
    }
}

/// The number by which events name an interface.
#[derive(Clone, Copy, Debug, PartialEq, Eq, Structural)]
pub struct InterfaceIndex(pub u32);

/// An IP address, as its bytes in network order.
#[derive(Clone, Copy, Debug, PartialEq, Eq)]
pub enum IpAddress {
    V4([u8; 4]),
    V6([u8; 16]),
}

impl View for IpAddress {
    type V = Seq<u8>;

    /// The bytes of the address: four or sixteen.
    open spec fn view(&self) -> Seq<u8> {
        match self {
            IpAddress::V4(a) => a@,
            IpAddress::V6(a) => a@,
        }
    }
}

/// Something that happened to an interface or to one of its addresses.
#[derive(Debug)]
pub enum NetworkEvent {
    /// An interface is there: its index, its name, its state.
    NewLink(InterfaceIndex, String, Flags),
    /// An interface is gone.
    DelLink(InterfaceIndex),
    /// An interface has an address: its index, the address, and the length
    /// of the network prefix in bits.
    NewAddr(InterfaceIndex, IpAddress, u8),
    /// An interface has lost an address.
    DelAddr(InterfaceIndex),
}

/// An event, with its name and its address as sequences.
pub ghost enum EventView {
    NewLink(u32, Seq<char>, Flags),
    DelLink(u32),
    NewAddr(u32, Seq<u8>, u8),
    DelAddr(u32),
}

impl View for NetworkEvent {
    type V = EventView;

    open spec fn view(&self) -> EventView {
        match self {
            NetworkEvent::NewLink(index, name, flags) => EventView::NewLink(index.0, name@, *flags),
            NetworkEvent::DelLink(index) => EventView::DelLink(index.0),
            NetworkEvent::NewAddr(index, address, prefix) => EventView::NewAddr(
                index.0,
                address@,
                *prefix,
            ),
            NetworkEvent::DelAddr(index) => EventView::DelAddr(index.0),
        }
    }
}

} // verus!
