//! Events from the messages by which the system announces changes.

use vstd::prelude::*;
use crate::bytes::field;
use crate::netif::network_interface::{
    EventView,
    Flags,
    InterfaceIndex,
    IpAddress,
    LinkFlags,
    NetworkEvent,
};

verus! {

/// The address that a byte string stands for: four bytes are an IPv4
/// address and sixteen an IPv6 address, in network order; no other length
/// is an address.
pub fn ip(ip_bytes: &[u8]) -> (r: Option<IpAddress>)
    ensures
        ip_bytes@.len() == 4 ==> (r matches Some(IpAddress::V4(a)) && a@ == ip_bytes@),
        ip_bytes@.len() == 16 ==> (r matches Some(IpAddress::V6(a)) && a@ == ip_bytes@),
        ip_bytes@.len() != 4 && ip_bytes@.len() != 16 ==> r is None,
{
    let len = ip_bytes.len();
    if len == 4 {
        let a = field::<4>(ip_bytes, 0);
        assert(a@ =~= ip_bytes@);
        Some(IpAddress::V4(a))
    } else if len == 16 {
        let a = field::<16>(ip_bytes, 0);
        assert(a@ =~= ip_bytes@);
        Some(IpAddress::V6(a))
    } else {
        None
    }
}

/// What a message about an interface or an address announces.
#[derive(Clone, Copy, Debug, PartialEq, Eq, Structural)]
pub enum MessageKind {
    /// Something is there, or has changed.
    New,
    /// Something is gone.
    Del,
    /// Anything else.
    Other,
}

/// What a message about an interface carries.
pub struct LinkPayload {
    pub index: u32,
    /// The interface's name, if the message has one.
    pub name: Option<String>,
    pub flags: LinkFlags,
}

/// A message about an interface.
pub struct LinkMessage {
    pub kind: MessageKind,
    /// What the message carries; some messages carry nothing.
    pub payload: Option<LinkPayload>,
}

/// What a message about an address carries.
pub struct AddrPayload {
    pub index: u32,
    pub prefix_len: u8,
    /// The bytes of the address, if the message has one.
    pub address: Option<Vec<u8>>,
}

/// A message about an address.
pub struct AddrMessage {
    pub kind: MessageKind,
    /// What the message carries; some messages carry nothing.
    pub payload: Option<AddrPayload>,
}

/// The event that a message about an interface stands for. Only a message
/// that carries a name tells anything: that the interface is there, with its
/// state, or that it is gone.
pub open spec fn link_event(msg: LinkMessage) -> Option<EventView> {
    match msg.payload {
        Some(LinkPayload { index, name: Some(name), flags }) => match msg.kind {
            MessageKind::New => Some(EventView::NewLink(index, name@, Flags::spec_from_link(flags))),
            MessageKind::Del => Some(EventView::DelLink(index)),
            MessageKind::Other => None,
        },
        _ => None,
    }
}

/// The event that a message about an interface stands for, if any.
pub fn translate_link_message(msg: &LinkMessage) -> (r: Option<NetworkEvent>)
    ensures
        r is Some <==> link_event(*msg) is Some,
        r matches Some(event) ==> link_event(*msg) == Some(event@),
{
    if let Some(p) = &msg.payload {
        if let Some(name) = &p.name {
            let newflags = Flags::from_link(p.flags);
            match msg.kind {
                MessageKind::New => {
                    return Some(NetworkEvent::NewLink(InterfaceIndex(p.index), name.clone(), newflags));
                },
                MessageKind::Del => {
                    return Some(NetworkEvent::DelLink(InterfaceIndex(p.index)));
                },
                MessageKind::Other => {},
            }
        }
    }
    None
}

/// Whether a byte string has the length of an address.
pub open spec fn is_address(bytes: Seq<u8>) -> bool {
    bytes.len() == 4 || bytes.len() == 16
}

/// The event that a message about an address stands for. Only a message
/// that carries an address of four or sixteen bytes tells anything: that the
/// interface has the address, or that it has lost one.
pub open spec fn addr_event(msg: AddrMessage) -> Option<EventView> {
    match msg.payload {
        Some(AddrPayload { index, prefix_len, address: Some(bytes) }) => if is_address(bytes@) {
            match msg.kind {
                MessageKind::New => Some(EventView::NewAddr(index, bytes@, prefix_len)),
                MessageKind::Del => Some(EventView::DelAddr(index)),
                MessageKind::Other => None,
            }
        } else {
            None
        },
        _ => None,
    }
}

/// The event that a message about an address stands for, if any.
pub fn translate_addr_message(msg: &AddrMessage) -> (r: Option<NetworkEvent>)
    ensures
        r is Some <==> addr_event(*msg) is Some,
        r matches Some(event) ==> addr_event(*msg) == Some(event@),
{
    if let Some(p) = &msg.payload {
        if let Some(bytes) = &p.address {
            if let Some(addr) = ip(bytes.as_slice()) {
                match msg.kind {
                    MessageKind::New => {
                        return Some(NetworkEvent::NewAddr(InterfaceIndex(p.index), addr, p.prefix_len));
                    },
                    MessageKind::Del => {
                        return Some(NetworkEvent::DelAddr(InterfaceIndex(p.index)));
                    },
                    MessageKind::Other => {},
                }
            }
        }
    }
    None
}

} // verus!
