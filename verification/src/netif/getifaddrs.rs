//! Events from a listing of the interfaces' addresses.
//!
//! The system lists one entry per address, each with the name of its
//! interface. The events name each interface once, the first time it is
//! seen, and then its addresses.

use vstd::prelude::*;
use vstd::std_specs::bits::u8_leading_ones;
use vstd::string::*;
use crate::netif::network_interface::{
    EventView,
    Flags,
    InterfaceIndex,
    IpAddress,
    LinkFlags,
    NetworkEvent,
};

verus! {

/// A socket address, as far as a listing is concerned.
#[derive(Clone, Copy, Debug)]
pub enum SockAddr {
    /// An IPv4 address or mask, in network order.
    V4([u8; 4]),
    /// An IPv6 address or mask, in network order.
    V6([u8; 16]),
    /// An address of any other family.
    Other,
}

/// One entry of the listing.
pub struct InterfaceAddress {
    pub interface_name: String,
    pub flags: LinkFlags,
    pub address: Option<SockAddr>,
    pub netmask: Option<SockAddr>,
}

/// Position of the first colon in `name`; the length of `name` if it has none.
pub open spec fn colon_at(name: Seq<char>) -> int
    decreases name.len(),
{
    if name.len() == 0 || name[0] == ':' {
        0
    } else {
        1 + colon_at(name.drop_first())
    }
}

/// Name of the interface that an entry belongs to: an alias such as
/// `eth0:1` belongs to `eth0`.
pub open spec fn base_name(name: Seq<char>) -> Seq<char> {
    name.subrange(0, colon_at(name))
}

/// Number of one bits that a mask begins with.
pub open spec fn leading_ones(mask: Seq<u8>) -> nat
    decreases mask.len(),
{
    if mask.len() == 0 {
        0
    } else if mask[0] == 0xFF {
        8 + leading_ones(mask.drop_first())
    } else {
        u8_leading_ones(mask[0]) as nat
    }
}

/// Position of `name` among `names`, if it is there.
pub open spec fn position(names: Seq<Seq<char>>, name: Seq<char>) -> Option<int>
    decreases names.len(),
{
    if names.len() == 0 {
        None
    } else if names.last() == name {
        match position(names.drop_last(), name) {
            Some(i) => Some(i),
            None => Some(names.len() - 1),
        }
    } else {
        position(names.drop_last(), name)
    }
}

/// The event for the address of an entry, on the interface with index
/// `index`: an address counts only if it comes with a mask of its own
/// family, which gives the length of the prefix.
pub open spec fn address_events(index: u32, address: Option<SockAddr>, netmask: Option<SockAddr>) -> Seq<
    EventView,
> {
    match (address, netmask) {
        (Some(SockAddr::V4(a)), Some(SockAddr::V4(m))) => seq![
            EventView::NewAddr(index, a@, leading_ones(m@) as u8),
        ],
        (Some(SockAddr::V6(a)), Some(SockAddr::V6(m))) => seq![
            EventView::NewAddr(index, a@, leading_ones(m@) as u8),
        ],
        _ => Seq::empty(),
    }
}

/// The events for the entries `entries`, when the interfaces named `seen`
/// have been announced already, in that order, with the indices 1, 2 and so
/// on. An entry whose interface has not been seen announces it, under the
/// next index; then comes the entry's address.
pub open spec fn events(entries: Seq<InterfaceAddress>, seen: Seq<Seq<char>>) -> Seq<EventView>
    decreases entries.len(),
{
    if entries.len() == 0 {
        Seq::empty()
    } else {
        let entry = entries[0];
        let name = base_name(entry.interface_name@);
        match position(seen, name) {
            Some(i) => address_events((i + 1) as u32, entry.address, entry.netmask) + events(
                entries.drop_first(),
                seen,
            ),
            None => seq![
                EventView::NewLink(
                    (seen.len() + 1) as u32,
                    name,
                    Flags::spec_from_link(entry.flags),
                ),
            ] + address_events((seen.len() + 1) as u32, entry.address, entry.netmask) + events(
                entries.drop_first(),
                seen.push(name),
            ),
        }
    }
}

/// The views of a list of events.
pub open spec fn event_views(list: Seq<NetworkEvent>) -> Seq<EventView> {
    list.map_values(|e: NetworkEvent| e@)
}

/// Name of the interface that an entry named `name` belongs to.
pub fn interface_name(name: &String) -> (r: String)
    ensures
        r@ == base_name(name@),
{
    let s = name.as_str();
    let len = s.unicode_len();
    let mut i: usize = 0;
    assert(s@.subrange(0, len as int) =~= s@);
    while i < len && s.get_char(i) != ':'
        invariant
            i <= len == s@.len(),
            colon_at(s@) == i + colon_at(s@.subrange(i as int, len as int)),
        decreases len - i,
    {
        proof {
            let rest = s@.subrange(i as int, len as int);
            assert(rest.drop_first() =~= s@.subrange(i + 1, len as int));
        }
        i += 1;
    }
    proof {
        let rest = s@.subrange(i as int, len as int);
        assert(rest.len() == 0 || rest[0] == ':');
    }
    String::from_str(s.substring_char(0, i))
}

/// Length of the prefix that a mask of at most 16 bytes stands for: the
/// number of one bits that it begins with.
pub fn prefix_length(mask: &[u8]) -> (r: u8)
    requires
        mask@.len() <= 16,
    ensures
        r == leading_ones(mask@),
{
    broadcast use vstd::std_specs::bits::axiom_u8_leading_ones;

    let len = mask.len();
    let mut i: usize = 0;
    let mut ones: u8 = 0;
    assert(mask@.subrange(0, len as int) =~= mask@);
    while i < len
        invariant
            i <= len == mask@.len() <= 16,
            ones == 8 * i,
            leading_ones(mask@) == ones + leading_ones(mask@.subrange(i as int, len as int)),
        decreases len - i,
    {
        let byte = mask[i];
        proof {
            let rest = mask@.subrange(i as int, len as int);
            assert(rest.drop_first() =~= mask@.subrange(i + 1, len as int));
            assert(rest[0] == byte);
        }
        if byte != 0xFF {
            return ones + (byte.leading_ones() as u8);
        }
        ones += 8;
        i += 1;
    }
    ones
}

fn find(names: &Vec<String>, name: &String) -> (r: Option<usize>)
    ensures
        r is Some <==> position(names@.map_values(|s: String| s@), name@) is Some,
        r matches Some(i) ==> position(names@.map_values(|s: String| s@), name@) == Some(i as int)
            && i < names@.len(),
{
    let ghost views = names@.map_values(|s: String| s@);
    let mut found: Option<usize> = None;
    let mut i: usize = 0;
    while i < names.len()
        invariant
            i <= names@.len(),
            views == names@.map_values(|s: String| s@),
            found is Some <==> position(views.subrange(0, i as int), name@) is Some,
            found matches Some(k) ==> position(views.subrange(0, i as int), name@) == Some(k as int)
                && k < i,
        decreases names@.len() - i,
    {
        proof {
            let upto = views.subrange(0, i + 1);
            assert(upto.drop_last() =~= views.subrange(0, i as int));
            assert(upto.last() == names@[i as int]@);
        }
        if found.is_none() && names[i] == *name {
            found = Some(i);
        }
        i += 1;
    }
    proof {
        assert(views.subrange(0, names@.len() as int) =~= views);
    }
    found
}

fn push_address(
    out: &mut Vec<NetworkEvent>,
    index: u32,
    address: Option<SockAddr>,
    netmask: Option<SockAddr>,
)
    ensures
        event_views(final(out)@) == event_views(old(out)@) + address_events(index, address, netmask),
{
    match (address, netmask) {
        (Some(SockAddr::V4(a)), Some(SockAddr::V4(m))) => {
            let prefix = prefix_length(m.as_slice());
            out.push(NetworkEvent::NewAddr(InterfaceIndex(index), IpAddress::V4(a), prefix));
            assert(event_views(out@) =~= event_views(old(out)@) + address_events(
                index,
                address,
                netmask,
            ));
        },
        (Some(SockAddr::V6(a)), Some(SockAddr::V6(m))) => {
            let prefix = prefix_length(m.as_slice());
            out.push(NetworkEvent::NewAddr(InterfaceIndex(index), IpAddress::V6(a), prefix));
            assert(event_views(out@) =~= event_views(old(out)@) + address_events(
                index,
                address,
                netmask,
            ));
        },
        _ => {
            assert(event_views(out@) =~= event_views(old(out)@) + address_events(
                index,
                address,
                netmask,
            ));
        },
    }
}

/// Turns a listing of the interfaces' addresses into events: each interface
/// is announced once, by the first entry that names it, with the indices
/// counting from one in the order of announcement; each entry with an
/// address and a mask of one family then announces that address. No event
/// tells of anything gone: a listing is a snapshot.
pub fn get_interfaces(entries: &Vec<InterfaceAddress>) -> (r: Vec<NetworkEvent>)
    requires
        entries@.len() < u32::MAX,
    ensures
        event_views(r@) == events(entries@, Seq::empty()),
{
    let mut out: Vec<NetworkEvent> = Vec::new();
    let mut names: Vec<String> = Vec::new();
    let mut i: usize = 0;
    assert(event_views(out@) =~= Seq::empty());
    assert(names@.map_values(|s: String| s@) =~= Seq::empty());
    assert(entries@.subrange(0, entries@.len() as int) =~= entries@);
    assert(Seq::<EventView>::empty() + events(entries@, Seq::empty()) =~= events(
        entries@,
        Seq::empty(),
    ));
    while i < entries.len()
        invariant
            i <= entries@.len() < u32::MAX,
            names@.len() <= i,
            event_views(out@) + events(
                entries@.subrange(i as int, entries@.len() as int),
                names@.map_values(|s: String| s@),
            ) == events(entries@, Seq::empty()),
        decreases entries@.len() - i,
    {
        let entry = &entries[i];
        let name = interface_name(&entry.interface_name);
        let ghost seen = names@.map_values(|s: String| s@);
        let ghost rest = entries@.subrange(i as int, entries@.len() as int);
        let ghost before = event_views(out@);
        proof {
            assert(rest[0] == entries@[i as int]);
            assert(rest.drop_first() =~= entries@.subrange(i + 1, entries@.len() as int));
        }
        let index: u32 = match find(&names, &name) {
            Some(k) => (k + 1) as u32,
            None => {
                let index = (names.len() + 1) as u32;
                let flags = Flags::from_link(entry.flags);
                out.push(NetworkEvent::NewLink(InterfaceIndex(index), name.clone(), flags));
                names.push(name);
                proof {
                    assert(names@.map_values(|s: String| s@) =~= seen.push(base_name(
                        entry.interface_name@,
                    )));
                    assert(event_views(out@) =~= before + seq![
                        EventView::NewLink(
                            index,
                            base_name(entry.interface_name@),
                            Flags::spec_from_link(entry.flags),
                        ),
                    ]);
                }
                index
            },
        };
        push_address(&mut out, index, entry.address, entry.netmask);
        i += 1;
    }
    out
}

/// Whether one of the first `j` events announces the interface with index
/// `index`.
pub open spec fn announced(list: Seq<EventView>, j: int, index: u32) -> bool {
    exists|k: int| 0 <= k < j && #[trigger] list[k] is NewLink && list[k]->NewLink_0 == index
}

/// What holds of event `j` of a listing that began with `known` interfaces
/// announced: it tells of nothing gone; if it announces an interface, that
/// interface was not known; if it announces an address, the address is on an
/// interface that was known or that an earlier event has announced.
pub open spec fn in_order(list: Seq<EventView>, known: nat, j: int) -> bool {
    match list[j] {
        EventView::NewLink(index, _, _) => index > known,
        EventView::NewAddr(index, _, _) => 1 <= index <= known || announced(list, j, index),
        EventView::DelLink(_) => false,
        EventView::DelAddr(_) => false,
    }
}

proof fn lemma_position_in_range(names: Seq<Seq<char>>, name: Seq<char>)
    ensures
        position(names, name) matches Some(i) ==> 0 <= i < names.len() && names[i] == name,
    decreases names.len(),
{
    if names.len() > 0 {
        lemma_position_in_range(names.drop_last(), name);
    }
}

proof fn lemma_announced_later(head: Seq<EventView>, tail: Seq<EventView>, j: int, index: u32)
    requires
        0 <= j <= tail.len(),
        announced(tail, j, index),
    ensures
        announced(head + tail, head.len() + j, index),
{
    let k = choose|k: int| 0 <= k < j && #[trigger] tail[k] is NewLink && tail[k]->NewLink_0 == index;
    let all = head + tail;
    assert(all[head.len() + k] == tail[k]);
}

/// In the events of a listing every interface is announced before any of
/// its addresses, under an index of its own, and nothing is told gone.
pub proof fn lemma_links_precede_addresses(entries: Seq<InterfaceAddress>, seen: Seq<Seq<char>>)
    requires
        entries.len() + seen.len() < u32::MAX,
    ensures
        forall|j: int|
            0 <= j < events(entries, seen).len() ==> in_order(events(entries, seen), seen.len(), j),
    decreases entries.len(),
{
    let all = events(entries, seen);
    if entries.len() > 0 {
        let entry = entries[0];
        let name = base_name(entry.interface_name@);
        lemma_position_in_range(seen, name);
        match position(seen, name) {
            Some(i) => {
                let index = (i + 1) as u32;
                let head = address_events(index, entry.address, entry.netmask);
                let tail = events(entries.drop_first(), seen);
                lemma_links_precede_addresses(entries.drop_first(), seen);
                assert forall|j: int| 0 <= j < all.len() implies in_order(all, seen.len(), j) by {
                    if j >= head.len() {
                        let t = j - head.len();
                        assert(all[j] == tail[t]);
                        assert(in_order(tail, seen.len(), t));
                        if let EventView::NewAddr(x, _, _) = tail[t] {
                            if announced(tail, t, x) {
                                lemma_announced_later(head, tail, t, x);
                            }
                        }
                    } else {
                        assert(all[j] == head[j]);
                    }
                }
            },
            None => {
                let index = (seen.len() + 1) as u32;
                let link = seq![
                    EventView::NewLink(index, name, Flags::spec_from_link(entry.flags)),
                ];
                let head = link + address_events(index, entry.address, entry.netmask);
                let tail = events(entries.drop_first(), seen.push(name));
                lemma_links_precede_addresses(entries.drop_first(), seen.push(name));
                assert(all == head + tail);
                assert forall|j: int| 0 <= j < all.len() implies in_order(all, seen.len(), j) by {
                    if j >= head.len() {
                        let t = j - head.len();
                        assert(all[j] == tail[t]);
                        assert(in_order(tail, seen.len() + 1, t));
                        if let EventView::NewAddr(x, _, _) = tail[t] {
                            if announced(tail, t, x) {
                                lemma_announced_later(head, tail, t, x);
                            } else {
                                assert(all[0] is NewLink);
                            }
                        }
                    } else if j > 0 {
                        assert(all[j] == head[j]);
                        assert(all[0] is NewLink);
                    } else {
                        assert(all[0] == link[0]);
                    }
                }
            },
        }
    }
}

} // verus!
