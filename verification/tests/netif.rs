use cotton::netif::dynamic::{
    ip, translate_addr_message, translate_link_message, AddrMessage, AddrPayload, LinkMessage,
    LinkPayload, MessageKind,
};
use cotton::netif::getifaddrs::{
    get_interfaces, interface_name, prefix_length, InterfaceAddress, SockAddr,
};
use cotton::netif::network_interface::{
    Flags, InterfaceIndex, IpAddress, LinkFlags, NetworkEvent, BROADCAST, LOOPBACK, MULTICAST,
    POINTTOPOINT, RUNNING, UP,
};

/// Reads an address in the usual notation: a dotted quad, or groups of hex
/// digits with at most one `::`.
fn parse(text: &str) -> Option<IpAddress> {
    if text.contains('.') {
        let parts: Vec<&str> = text.split('.').collect();
        if parts.len() != 4 {
            return None;
        }
        let mut a = [0u8; 4];
        for (i, part) in parts.iter().enumerate() {
            a[i] = part.parse().ok()?;
        }
        return Some(IpAddress::V4(a));
    }
    let (head, tail) = match text.split_once("::") {
        Some((h, t)) => (h, Some(t)),
        None => (text, None),
    };
    let groups = |s: &str| -> Option<Vec<u16>> {
        if s.is_empty() {
            return Some(vec![]);
        }
        s.split(':').map(|g| u16::from_str_radix(g, 16).ok()).collect()
    };
    let front = groups(head)?;
    let back = match tail {
        Some(t) => groups(t)?,
        None => vec![],
    };
    if front.len() + back.len() > 8 || (tail.is_none() && front.len() != 8) {
        return None;
    }
    let mut all = front.clone();
    all.resize(8 - back.len(), 0);
    all.extend(back);
    let mut a = [0u8; 16];
    for (i, g) in all.iter().enumerate() {
        a[2 * i] = (g >> 8) as u8;
        a[2 * i + 1] = (g & 0xff) as u8;
    }
    Some(IpAddress::V6(a))
}

const NO_FLAGS: LinkFlags = LinkFlags {
    up: false,
    running: false,
    loopback: false,
    point_to_point: false,
    broadcast: false,
    multicast: false,
};

#[test]
fn notation_is_read_as_bytes() {
    assert_eq!(parse("192.168.0.200"), Some(IpAddress::V4([192, 168, 0, 200])));
    let mut one = [0u8; 16];
    one[15] = 1;
    assert_eq!(parse("::1"), Some(IpAddress::V6(one)));
    let mut a = [0u8; 16];
    a[0] = 0xfe;
    a[1] = 0x80;
    a[15] = 2;
    assert_eq!(parse("fe80::2"), Some(IpAddress::V6(a)));
}

#[test]
fn parse_4byte_addr() {
    let input = [192u8, 168u8, 0u8, 200u8];

    let result = ip(&input);

    assert_eq!(result, parse("192.168.0.200"));
}

#[test]
fn parse_16byte_addr() {
    let input = [0u8, 0, 0, 0, 0, 0, 0, 0, 0, 0, 0, 0, 0, 0, 0, 1];

    let result = ip(&input);

    assert_eq!(result, parse("::1"));
}

#[test]
fn no_parse_5byte_addr() {
    let input = [2u8, 3, 4, 5, 6];

    let result = ip(&input);

    assert_eq!(result, None);
}

#[test]
fn no_parse_empty_addr() {
    assert!(ip(&[]).is_none());
    assert!(ip(&[1, 2, 3]).is_none());
    assert!(ip(&[0u8; 17]).is_none());
}

#[test]
fn flags_have_one_bit_per_property() {
    assert_eq!(Flags::from_link(NO_FLAGS).bits, 0);
    assert_eq!(Flags::from_link(LinkFlags { up: true, ..NO_FLAGS }).bits, UP);
    assert_eq!(Flags::from_link(LinkFlags { running: true, ..NO_FLAGS }).bits, RUNNING);
    assert_eq!(Flags::from_link(LinkFlags { loopback: true, ..NO_FLAGS }).bits, LOOPBACK);
    assert_eq!(
        Flags::from_link(LinkFlags { point_to_point: true, ..NO_FLAGS }).bits,
        POINTTOPOINT
    );
    assert_eq!(Flags::from_link(LinkFlags { broadcast: true, ..NO_FLAGS }).bits, BROADCAST);
    assert_eq!(Flags::from_link(LinkFlags { multicast: true, ..NO_FLAGS }).bits, MULTICAST);
    let all = Flags::from_link(LinkFlags {
        up: true,
        running: true,
        loopback: true,
        point_to_point: true,
        broadcast: true,
        multicast: true,
    });
    assert_eq!(all.bits, 0x105b);
    assert!(all.contains(RUNNING | UP | MULTICAST));
    assert!(!Flags::from_link(LinkFlags { up: true, ..NO_FLAGS }).contains(RUNNING | UP));
}

#[test]
fn link_message_with_name_is_translated() {
    let flags = LinkFlags { up: true, running: true, ..NO_FLAGS };
    let msg = LinkMessage {
        kind: MessageKind::New,
        payload: Some(LinkPayload { index: 3, name: Some("eth0".to_string()), flags }),
    };
    match translate_link_message(&msg) {
        Some(NetworkEvent::NewLink(InterfaceIndex(3), name, f)) => {
            assert_eq!(name, "eth0");
            assert_eq!(f.bits, UP | RUNNING);
        }
        other => panic!("unexpected {:?}", other),
    }
    let gone = LinkMessage {
        kind: MessageKind::Del,
        payload: Some(LinkPayload { index: 3, name: Some("eth0".to_string()), flags }),
    };
    assert!(matches!(
        translate_link_message(&gone),
        Some(NetworkEvent::DelLink(InterfaceIndex(3)))
    ));
}

#[test]
fn link_message_without_name_or_payload_is_dropped() {
    let nameless = LinkMessage {
        kind: MessageKind::New,
        payload: Some(LinkPayload { index: 3, name: None, flags: NO_FLAGS }),
    };
    assert!(translate_link_message(&nameless).is_none());
    let empty = LinkMessage { kind: MessageKind::New, payload: None };
    assert!(translate_link_message(&empty).is_none());
    let other = LinkMessage {
        kind: MessageKind::Other,
        payload: Some(LinkPayload { index: 3, name: Some("eth0".to_string()), flags: NO_FLAGS }),
    };
    assert!(translate_link_message(&other).is_none());
}

#[test]
fn addr_message_is_translated() {
    let msg = AddrMessage {
        kind: MessageKind::New,
        payload: Some(AddrPayload { index: 2, prefix_len: 24, address: Some(vec![10, 0, 0, 1]) }),
    };
    match translate_addr_message(&msg) {
        Some(NetworkEvent::NewAddr(InterfaceIndex(2), address, 24)) => {
            assert_eq!(Some(address), parse("10.0.0.1"));
        }
        other => panic!("unexpected {:?}", other),
    }
    let gone = AddrMessage {
        kind: MessageKind::Del,
        payload: Some(AddrPayload { index: 2, prefix_len: 24, address: Some(vec![10, 0, 0, 1]) }),
    };
    assert!(matches!(
        translate_addr_message(&gone),
        Some(NetworkEvent::DelAddr(InterfaceIndex(2)))
    ));
}

#[test]
fn addr_message_without_usable_address_is_dropped() {
    let short = AddrMessage {
        kind: MessageKind::New,
        payload: Some(AddrPayload { index: 2, prefix_len: 24, address: Some(vec![10, 0, 0]) }),
    };
    assert!(translate_addr_message(&short).is_none());
    let none = AddrMessage {
        kind: MessageKind::New,
        payload: Some(AddrPayload { index: 2, prefix_len: 24, address: None }),
    };
    assert!(translate_addr_message(&none).is_none());
    let empty = AddrMessage { kind: MessageKind::Del, payload: None };
    assert!(translate_addr_message(&empty).is_none());
    let other = AddrMessage {
        kind: MessageKind::Other,
        payload: Some(AddrPayload { index: 2, prefix_len: 24, address: Some(vec![10, 0, 0, 1]) }),
    };
    assert!(translate_addr_message(&other).is_none());
}

#[test]
fn alias_belongs_to_its_interface() {
    assert_eq!(interface_name(&"eth0:1".to_string()), "eth0");
    assert_eq!(interface_name(&"eth0".to_string()), "eth0");
    assert_eq!(interface_name(&"a:b:c".to_string()), "a");
    assert_eq!(interface_name(&":x".to_string()), "");
    assert_eq!(interface_name(&"".to_string()), "");
    assert_eq!(interface_name(&"w\u{e9}:1".to_string()), "w\u{e9}");
}

#[test]
fn prefix_length_counts_leading_ones() {
    assert_eq!(prefix_length(&[255, 255, 255, 0]), 24);
    assert_eq!(prefix_length(&[255, 255, 240, 0]), 20);
    assert_eq!(prefix_length(&[0, 0, 0, 0]), 0);
    assert_eq!(prefix_length(&[255, 255, 255, 255]), 32);
    assert_eq!(prefix_length(&[255, 0, 255, 255]), 8);
    assert_eq!(prefix_length(&[254, 255, 255, 255]), 7);
    assert_eq!(prefix_length(&[0xff; 16]), 128);
    let mut mask = [0u8; 16];
    mask[..8].copy_from_slice(&[0xff; 8]);
    assert_eq!(prefix_length(&mask), 64);
    assert_eq!(prefix_length(&[]), 0);
}

fn entry(name: &str, address: Option<SockAddr>, netmask: Option<SockAddr>) -> InterfaceAddress {
    InterfaceAddress {
        interface_name: name.to_string(),
        flags: LinkFlags { up: true, ..NO_FLAGS },
        address,
        netmask,
    }
}

#[test]
fn listing_announces_each_interface_once_before_its_addresses() {
    let v6 = {
        let mut a = [0u8; 16];
        a[15] = 1;
        a
    };
    let entries = vec![
        entry("lo", Some(SockAddr::V4([127, 0, 0, 1])), Some(SockAddr::V4([255, 0, 0, 0]))),
        entry("eth0", Some(SockAddr::Other), None),
        entry(
            "eth0",
            Some(SockAddr::V4([192, 168, 0, 200])),
            Some(SockAddr::V4([255, 255, 255, 0])),
        ),
        entry("lo", Some(SockAddr::V6(v6)), Some(SockAddr::V6([0xff; 16]))),
        entry(
            "eth0:1",
            Some(SockAddr::V4([10, 0, 0, 1])),
            Some(SockAddr::V4([255, 255, 0, 0])),
        ),
    ];
    let events = get_interfaces(&entries);
    assert_eq!(events.len(), 6);
    match &events[0] {
        NetworkEvent::NewLink(InterfaceIndex(1), name, flags) => {
            assert_eq!(name, "lo");
            assert_eq!(flags.bits, UP);
        }
        other => panic!("unexpected {:?}", other),
    }
    match &events[1] {
        NetworkEvent::NewAddr(InterfaceIndex(1), address, 8) => {
            assert_eq!(Some(*address), parse("127.0.0.1"));
        }
        other => panic!("unexpected {:?}", other),
    }
    match &events[2] {
        NetworkEvent::NewLink(InterfaceIndex(2), name, _) => assert_eq!(name, "eth0"),
        other => panic!("unexpected {:?}", other),
    }
    match &events[3] {
        NetworkEvent::NewAddr(InterfaceIndex(2), address, 24) => {
            assert_eq!(Some(*address), parse("192.168.0.200"));
        }
        other => panic!("unexpected {:?}", other),
    }
    match &events[4] {
        NetworkEvent::NewAddr(InterfaceIndex(1), address, 128) => {
            assert_eq!(Some(*address), parse("::1"));
        }
        other => panic!("unexpected {:?}", other),
    }
    match &events[5] {
        NetworkEvent::NewAddr(InterfaceIndex(2), address, 16) => {
            assert_eq!(Some(*address), parse("10.0.0.1"));
        }
        other => panic!("unexpected {:?}", other),
    }
}

#[test]
fn listing_skips_addresses_without_a_mask_of_their_family() {
    let entries = vec![
        entry("a", Some(SockAddr::V4([1, 2, 3, 4])), None),
        entry("b", None, Some(SockAddr::V4([255, 0, 0, 0]))),
        entry("c", Some(SockAddr::V4([1, 2, 3, 4])), Some(SockAddr::V6([0xff; 16]))),
        entry("d", Some(SockAddr::V6([0; 16])), Some(SockAddr::V4([255, 0, 0, 0]))),
        entry("e", Some(SockAddr::Other), Some(SockAddr::Other)),
    ];
    let events = get_interfaces(&entries);
    assert_eq!(events.len(), 5);
    for (i, event) in events.iter().enumerate() {
        assert!(matches!(event, NetworkEvent::NewLink(InterfaceIndex(n), _, _) if *n == i as u32 + 1));
    }
    assert!(get_interfaces(&vec![]).is_empty());
}
