//! Cutting a transfer into packets, and putting it together again.
//!
//! The control pipe's buffer has two halves, which the peripheral and the
//! driver use in turn. A packetiser arms the half that is due, if the
//! peripheral has given it back, with the next packet of the transfer; a
//! depacketiser takes a filled half off and advances to the other.

use vstd::prelude::*;
use crate::usb_host::registers::{arm_ops, push_arm_ops, BufferControl, BufferHalf, HwOp};

verus! {

/// One packet of a transfer: its length, and whether it is marked as the last.
pub ghost struct Packet {
    pub length: nat,
    pub last: bool,
}

/// The packets that remain of a transfer:
/// full packets while more than a packet is left, then what is left, marked
/// last, then one empty packet, marked last, if `zero_pending` asks for it.
pub open spec fn packets(remain: nat, packet_size: nat, zero_pending: bool) -> Seq<Packet>
    decreases remain,
{
    if remain == 0 || packet_size == 0 {
        if zero_pending {
            seq![Packet { length: 0, last: true }]
        } else {
            Seq::empty()
        }
    } else if remain <= packet_size {
        seq![Packet { length: remain, last: true }] + packets(0, packet_size, zero_pending)
    } else {
        seq![Packet { length: packet_size, last: false }] + packets(
            (remain - packet_size) as nat,
            packet_size,
            zero_pending,
        )
    }
}

/// Sum of the lengths of a sequence of packets.
pub open spec fn total_length(p: Seq<Packet>) -> nat
    decreases p.len(),
{
    if p.len() == 0 {
        0
    } else {
        p[0].length + total_length(p.drop_first())
    }
}

/// What a packetiser is, whatever its direction: the bytes still to arm, the
/// packet size, whether an empty packet is still owed, and the half to arm next.
pub ghost struct PacketiserView {
    pub remain: nat,
    pub packet_size: nat,
    pub zero_pending: bool,
    pub next_half: u8,
}

impl PacketiserView {
    /// What holds of every packetiser: a positive packet size, and a half
    /// that exists.
    pub open spec fn wf(self) -> bool {
        self.packet_size > 0 && self.next_half <= 1
    }

    /// The packets still to come.
    pub open spec fn pending(self) -> Seq<Packet> {
        packets(self.remain, self.packet_size, self.zero_pending)
    }

    /// The next packet, if there is one.
    pub open spec fn next_packet(self) -> Option<Packet> {
        if self.remain == 0 {
            if self.zero_pending {
                Some(Packet { length: 0, last: true })
            } else {
                None
            }
        } else if self.remain <= self.packet_size {
            Some(Packet { length: self.remain, last: true })
        } else {
            Some(Packet { length: self.packet_size, last: false })
        }
    }

    /// Length of the next packet; zero when none is left.
    pub open spec fn next_length(self) -> nat {
        match self.next_packet() {
            Some(p) => p.length,
            None => 0,
        }
    }

    /// Last-flag of the next packet; false when none is left.
    pub open spec fn next_last(self) -> bool {
        match self.next_packet() {
            Some(p) => p.last,
            None => false,
        }
    }

    /// The packetiser once its next packet has been asked for: only the debt
    /// of an empty packet is settled by the asking.
    pub open spec fn asked(self) -> PacketiserView {
        PacketiserView { zero_pending: self.zero_pending && self.remain != 0, ..self }
    }

    /// Whether `prepare` arms a buffer when shown `reg`: the half due must be
    /// back from the peripheral, and a packet must be left.
    pub open spec fn arms(self, reg: BufferControl) -> bool {
        !reg.half(self.next_half).available && self.next_packet() is Some
    }

    /// The packetiser after it has armed its next packet.
    pub open spec fn armed(self) -> PacketiserView {
        PacketiserView {
            remain: (self.remain - self.next_length()) as nat,
            packet_size: self.packet_size,
            zero_pending: self.zero_pending && self.remain != 0,
            next_half: if self.next_half == 0 { 1u8 } else { 0u8 },
        }
    }

    /// Data toggle of the packet that goes into the half due: the first half
    /// carries DATA0, the second DATA1, so that the toggles of the packets of
    /// a transfer run false, true, false, true as the halves alternate.
    pub open spec fn next_pid(self) -> bool {
        self.next_half != 0
    }
}

/// Arms the buffers that receive an inbound transfer.
pub struct InPacketiser {
    next_prep: u8,
    remain: u16,
    packet_size: u16,
    need_zero_size_packet: bool,
}

impl View for InPacketiser {
    type V = PacketiserView;

    closed spec fn view(&self) -> PacketiserView {
        PacketiserView {
            remain: self.remain as nat,
            packet_size: self.packet_size as nat,
            zero_pending: self.need_zero_size_packet,
            next_half: self.next_prep,
        }
    }
}

impl InPacketiser {
    #[verifier::type_invariant]
    spec fn inv(self) -> bool {
        self.next_prep <= 1 && self.packet_size > 0
    }

    /// The half written to the peripheral's register for an inbound packet.
    pub open spec fn armed_half(v: PacketiserView) -> BufferHalf {
        BufferHalf {
            full: false,
            available: true,
            pid: v.next_pid(),
            last: v.next_last(),
            length: v.next_length() as u16,
        }
    }

    /// Starts on a transfer of `remain` bytes. A transfer of no bytes is the
    /// status stage: one empty packet.
    pub fn new(remain: u16, packet_size: u16) -> (p: Self)
        requires
            packet_size > 0,
        ensures
            p@ == (PacketiserView {
                remain: remain as nat,
                packet_size: packet_size as nat,
                zero_pending: remain == 0,
                next_half: 0,
            }),
            p@.wf(),
    {
        Self { next_prep: 0, remain, packet_size, need_zero_size_packet: remain == 0 }
    }

    /// Length and last-flag of the packet to arm next; `None` when the
    /// transfer is all armed.
    pub fn next_packet(&mut self) -> (r: Option<(u16, bool)>)
        ensures
            old(self)@.wf(),
            final(self)@ == old(self)@.asked(),
            r is Some <==> old(self)@.next_packet() is Some,
            r matches Some(p) ==> old(self)@.next_packet() == Some(
                Packet { length: p.0 as nat, last: p.1 },
            ),
    {
        proof {
            use_type_invariant(&*self);
        }
        if self.remain == 0 {
            if self.need_zero_size_packet {
                self.need_zero_size_packet = false;
                return Some((0, true));
            } else {
                return None;
            }
        }
        if self.remain <= self.packet_size {
            return Some((self.remain, true));
        }
        Some((self.packet_size, false))
    }

    /// Arms the half that is due with the next packet, if that half is back
    /// from the peripheral and a packet is left; else does nothing.
    pub fn prepare(&mut self, reg: &mut BufferControl, ops: &mut Vec<HwOp>)
        ensures
            old(self)@.wf(),
            final(self)@.wf(),
            old(self)@.arms(*old(reg)) ==> {
                &&& final(self)@ == old(self)@.armed()
                &&& *final(reg) == old(reg).with_half(
                    old(self)@.next_half,
                    Self::armed_half(old(self)@),
                )
                &&& final(ops)@ == old(ops)@ + arm_ops(
                    0,
                    old(self)@.next_half,
                    Some(false),
                    old(self)@.next_pid(),
                    old(self)@.next_last(),
                    old(self)@.next_length() as u16,
                )
            },
            !old(self)@.arms(*old(reg)) ==> {
                &&& final(self)@ == old(self)@
                &&& *final(reg) == *old(reg)
                &&& final(ops)@ == old(ops)@
            },
    {
        proof {
            use_type_invariant(&*self);
        }
        let half = self.next_prep;
        if !reg.half(half).available {
            if let Some((this_packet, is_last)) = self.next_packet() {
                let pid = half != 0;
                push_arm_ops(ops, 0, half, Some(false), pid, is_last, this_packet);
                *reg = reg.with_half(
                    half,
                    BufferHalf { full: false, available: true, pid, last: is_last, length: this_packet },
                );
                *self = Self {
                    next_prep: if half == 0 { 1 } else { 0 },
                    remain: self.remain - this_packet,
                    packet_size: self.packet_size,
                    need_zero_size_packet: self.need_zero_size_packet,
                };
            }
        }
    }
}

/// Copies an outbound transfer into the buffers, packet by packet.
pub struct OutPacketiser {
    next_prep: u8,
    remain: usize,
    offset: usize,
    packet_size: usize,
    need_zero_size_packet: bool,
}

impl View for OutPacketiser {
    type V = PacketiserView;

    closed spec fn view(&self) -> PacketiserView {
        PacketiserView {
            remain: self.remain as nat,
            packet_size: self.packet_size as nat,
            zero_pending: self.need_zero_size_packet,
            next_half: self.next_prep,
        }
    }
}

impl OutPacketiser {
    #[verifier::type_invariant]
    spec fn inv(self) -> bool {
        &&& self.next_prep <= 1
        &&& self.packet_size > 0
        &&& self.offset + self.remain <= u16::MAX
    }

    /// Offset in the caller's buffer of the next byte to send. With the
    /// bytes still to send it makes up the size of the transfer.
    pub closed spec fn offset(&self) -> nat {
        self.offset as nat
    }

    /// Size of the whole transfer.
    pub open spec fn size(&self) -> nat {
        self.offset() + self@.remain
    }

    /// The full-flag written for an outbound packet of `length` bytes into
    /// half `half`: set, but for an empty packet in the first half, whose
    /// flag is left as it is.
    pub open spec fn full_flag(half: u8, length: nat) -> Option<bool> {
        if half == 0 && length == 0 {
            None
        } else {
            Some(true)
        }
    }

    /// The half as it reads once an outbound packet has been armed in it.
    pub open spec fn armed_half(v: PacketiserView, before: BufferHalf) -> BufferHalf {
        BufferHalf {
            full: match Self::full_flag(v.next_half, v.next_length()) {
                Some(f) => f,
                None => before.full,
            },
            available: true,
            pid: v.next_pid(),
            last: v.next_last(),
            length: v.next_length() as u16,
        }
    }

    /// The operations that send the next packet: the copy, unless the packet
    /// is empty, then the arming of the half.
    pub open spec fn send_ops(v: PacketiserView, offset: nat) -> Seq<HwOp> {
        let copy = if v.next_length() > 0 {
            seq![
                HwOp::CopyOut {
                    half: v.next_half,
                    offset: offset as usize,
                    len: v.next_length() as usize,
                },
            ]
        } else {
            Seq::empty()
        };
        copy + arm_ops(
            0,
            v.next_half,
            Self::full_flag(v.next_half, v.next_length()),
            v.next_pid(),
            v.next_last(),
            v.next_length() as u16,
        )
    }

    /// Starts on a transfer of `size` bytes. An empty packet ends it if
    /// `size` is a positive multiple of the packet size.
    pub fn new(size: u16, packet_size: u16) -> (p: Self)
        requires
            packet_size > 0,
        ensures
            p@ == (PacketiserView {
                remain: size as nat,
                packet_size: packet_size as nat,
                zero_pending: size > 0 && size % packet_size == 0,
                next_half: 0,
            }),
            p.offset() == 0,
            p.size() == size,
            p@.wf(),
    {
        Self {
            next_prep: 0,
            remain: size as usize,
            offset: 0,
            packet_size: packet_size as usize,
            need_zero_size_packet: size > 0 && (size % packet_size) == 0,
        }
    }

    /// Length and last-flag of the packet to send next; `None` when the
    /// transfer is all sent.
    pub fn next_packet(&mut self) -> (r: Option<(usize, bool)>)
        ensures
            old(self)@.wf(),
            final(self)@ == old(self)@.asked(),
            final(self).offset() == old(self).offset(),
            final(self).size() == old(self).size(),
            final(self).size() <= u16::MAX,
            r is Some <==> old(self)@.next_packet() is Some,
            r matches Some(p) ==> old(self)@.next_packet() == Some(
                Packet { length: p.0 as nat, last: p.1 },
            ),
    {
        proof {
            use_type_invariant(&*self);
        }
        if self.remain == 0 {
            if self.need_zero_size_packet {
                self.need_zero_size_packet = false;
                return Some((0, true));
            } else {
                return None;
            }
        }
        if self.remain <= self.packet_size {
            return Some((self.remain, true));
        }
        Some((self.packet_size, false))
    }

    /// Sends the next packet through the half that is due, if that half is
    /// back from the peripheral and a packet is left; else does nothing.
    pub fn prepare(&mut self, reg: &mut BufferControl, ops: &mut Vec<HwOp>)
        ensures
            old(self)@.wf(),
            final(self)@.wf(),
            final(self).size() == old(self).size(),
            final(self).size() <= u16::MAX,
            old(self)@.arms(*old(reg)) ==> {
                &&& final(self)@ == old(self)@.armed()
                &&& final(self).offset() == old(self).offset() + old(self)@.next_length()
                &&& *final(reg) == old(reg).with_half(
                    old(self)@.next_half,
                    Self::armed_half(old(self)@, old(reg).half(old(self)@.next_half)),
                )
                &&& final(ops)@ == old(ops)@ + Self::send_ops(old(self)@, old(self).offset())
            },
            !old(self)@.arms(*old(reg)) ==> {
                &&& final(self)@ == old(self)@
                &&& final(self).offset() == old(self).offset()
                &&& *final(reg) == *old(reg)
                &&& final(ops)@ == old(ops)@
            },
    {
        proof {
            use_type_invariant(&*self);
        }
        let half = self.next_prep;
        let before = reg.half(half);
        if !before.available {
            if let Some((this_packet, is_last)) = self.next_packet() {
                let pid = half != 0;
                let full = if half == 0 && this_packet == 0 {
                    None
                } else {
                    Some(true)
                };
                if this_packet > 0 {
                    ops.push(HwOp::CopyOut { half, offset: self.offset, len: this_packet });
                }
                push_arm_ops(ops, 0, half, full, pid, is_last, this_packet as u16);
                *reg = reg.with_half(
                    half,
                    BufferHalf {
                        full: match full {
                            Some(f) => f,
                            None => before.full,
                        },
                        available: true,
                        pid,
                        last: is_last,
                        length: this_packet as u16,
                    },
                );
                *self = Self {
                    next_prep: if half == 0 { 1 } else { 0 },
                    remain: self.remain - this_packet,
                    offset: self.offset + this_packet,
                    packet_size: self.packet_size,
                    need_zero_size_packet: self.need_zero_size_packet,
                };
            }
        }
    }
}

/// What an inbound depacketiser is: the size asked for, the bytes taken so
/// far, and the half to look at next.
pub ghost struct DepacketiserView {
    pub size: nat,
    pub total: nat,
    pub next_half: u8,
}

impl DepacketiserView {
    /// What holds of every depacketiser: it has taken no more than was asked
    /// for, and the half due exists.
    pub open spec fn wf(self) -> bool {
        self.total <= self.size <= u16::MAX && self.next_half <= 1
    }

    /// Whether `retire` takes a packet off when shown `reg`: the half due
    /// must be full.
    pub open spec fn retires(self, reg: BufferControl) -> bool {
        reg.half(self.next_half).full
    }

    /// Bytes taken from a packet of the reported length: what the peripheral
    /// reports, but never more than is still wanted.
    pub open spec fn taken(self, reg: BufferControl) -> nat {
        let length = reg.half(self.next_half).length as nat;
        if self.size - self.total <= length {
            (self.size - self.total) as nat
        } else {
            length
        }
    }

    /// The depacketiser after it has taken the packet in the half due.
    pub open spec fn retired(self, reg: BufferControl) -> DepacketiserView {
        DepacketiserView {
            size: self.size,
            total: self.total + self.taken(reg),
            next_half: if self.next_half == 0 { 1u8 } else { 0u8 },
        }
    }

    /// The depacketiser after one call of `retire` that was shown `reg`.
    pub open spec fn step(self, reg: BufferControl) -> DepacketiserView {
        if self.retires(reg) {
            self.retired(reg)
        } else {
            self
        }
    }

    /// The depacketiser after a call of `retire` for each of `regs`, in order.
    pub open spec fn run(self, regs: Seq<BufferControl>) -> DepacketiserView
        decreases regs.len(),
    {
        if regs.len() == 0 {
            self
        } else {
            self.step(regs[0]).run(regs.drop_first())
        }
    }

    /// The copy that takes the packet off, unless nothing is taken.
    pub open spec fn copy_ops(self, reg: BufferControl) -> Seq<HwOp> {
        if self.taken(reg) > 0 {
            seq![
                HwOp::CopyIn {
                    half: self.next_half,
                    offset: self.total as usize,
                    len: self.taken(reg) as usize,
                },
            ]
        } else {
            Seq::empty()
        }
    }
}

/// Collects an inbound transfer from the buffers, packet by packet.
pub struct InDepacketiser {
    next_retire: u8,
    remain: usize,
    offset: usize,
}

impl View for InDepacketiser {
    type V = DepacketiserView;

    closed spec fn view(&self) -> DepacketiserView {
        DepacketiserView {
            size: (self.offset + self.remain) as nat,
            total: self.offset as nat,
            next_half: self.next_retire,
        }
    }
}

impl InDepacketiser {
    #[verifier::type_invariant]
    spec fn inv(self) -> bool {
        &&& self.next_retire <= 1
        &&& self.offset + self.remain <= u16::MAX
    }

    /// Starts on a transfer of at most `size` bytes.
    pub fn new(size: u16) -> (d: Self)
        ensures
            d@ == (DepacketiserView { size: size as nat, total: 0, next_half: 0 }),
            d@.wf(),
    {
        Self { next_retire: 0, remain: size as usize, offset: 0 }
    }

    /// Bytes received so far. Meaningful at any time, also when the transfer
    /// ended early; never more than the size asked for.
    pub fn total(&self) -> (t: usize)
        ensures
            t == self@.total,
            t <= self@.size,
            self@.wf(),
            self@.size <= u16::MAX,
    {
        proof {
            use_type_invariant(self);
        }
        self.offset
    }

    /// Takes the packet off the half that is due, if that half is full: asks
    /// for the copy into the caller's buffer, of no more bytes than are still
    /// wanted, and moves on to the other half. Else does nothing.
    pub fn retire(&mut self, reg: BufferControl, ops: &mut Vec<HwOp>)
        ensures
            old(self)@.wf(),
            final(self)@ == old(self)@.step(reg),
            final(self)@.total <= final(self)@.size,
            old(self)@.retires(reg) ==> final(ops)@ == old(ops)@ + old(self)@.copy_ops(reg),
            !old(self)@.retires(reg) ==> final(ops)@ == old(ops)@,
    {
        proof {
            use_type_invariant(&*self);
        }
        let half = self.next_retire;
        let val = reg.half(half);
        if val.full {
            let length = val.length as usize;
            let this_packet = if self.remain <= length {
                self.remain
            } else {
                length
            };
            if this_packet > 0 {
                ops.push(HwOp::CopyIn { half, offset: self.offset, len: this_packet });
            }
            *self = Self {
                next_retire: if half == 0 { 1 } else { 0 },
                remain: self.remain - this_packet,
                offset: self.offset + this_packet,
            };
        }
    }
}

/// Follows an outbound transfer's buffers as the peripheral finishes with
/// them. It moves no data; it only keeps track of the half that is due.
pub struct OutDepacketiser {
    next_retire: u8,
}

impl OutDepacketiser {
    #[verifier::type_invariant]
    spec fn inv(self) -> bool {
        self.next_retire <= 1
    }

    /// The half to look at next.
    pub closed spec fn spec_next_half(&self) -> u8 {
        self.next_retire
    }

    /// The half to look at next: all that an outbound depacketiser knows.
    #[verifier::when_used_as_spec(spec_next_half)]
    pub fn next_half(&self) -> (half: u8)
        ensures
            half == self.spec_next_half(),
            half <= 1,
    {
        proof {
            use_type_invariant(self);
        }
        self.next_retire
    }

    /// Starts with the first half.
    pub fn new() -> (d: Self)
        ensures
            d.next_half() == 0,
    {
        Self { next_retire: 0 }
    }

    /// Moves on to the other half if the half that is due is marked full.
    pub fn retire(&mut self, reg: BufferControl)
        ensures
            final(self).next_half() == if reg.half(old(self).next_half()).full {
                if old(self).next_half() == 0 {
                    1u8
                } else {
                    0u8
                }
            } else {
                old(self).next_half()
            },
    {
        proof {
            use_type_invariant(&*self);
        }
        let half = self.next_retire;
        if reg.half(half).full {
            self.next_retire = if half == 0 {
                1
            } else {
                0
            };
        }
    }
}

proof fn lemma_total_length_cons(head: Packet, tail: Seq<Packet>)
    ensures
        total_length(seq![head] + tail) == head.length + total_length(tail),
{
    let s = seq![head] + tail;
    assert(s.drop_first() =~= tail);
}

proof fn lemma_packets(remain: nat, packet_size: nat, zero_pending: bool)
    requires
        packet_size > 0,
        zero_pending ==> remain % packet_size == 0,
    ensures
        ({
            let p = packets(remain, packet_size, zero_pending);
            let full = remain / packet_size;
            let data = if remain % packet_size == 0 {
                full
            } else {
                full + 1
            };
            &&& total_length(p) == remain
            &&& p.len() == data + if zero_pending {
                1nat
            } else {
                0nat
            }
            &&& forall|i: int| 0 <= i < p.len() - 1 ==> (#[trigger] p[i]).length == packet_size
            &&& forall|i: int| 0 <= i < p.len() ==> ((#[trigger] p[i]).length == 0 <==> zero_pending
                && i == p.len() - 1)
            &&& forall|i: int|
                0 <= i < p.len() ==> ((#[trigger] p[i]).last <==> i >= data - 1)
        }),
    decreases remain,
{
    let p = packets(remain, packet_size, zero_pending);
    let ps = packet_size as int;
    if remain == 0 {
        vstd::arithmetic::div_mod::lemma_basic_div(0, ps);
        vstd::arithmetic::div_mod::lemma_small_mod(0, packet_size);
        if zero_pending {
            lemma_total_length_cons(Packet { length: 0, last: true }, Seq::empty());
            assert(p =~= seq![Packet { length: 0, last: true }] + Seq::empty());
        }
    } else if remain <= packet_size {
        let tail = packets(0, packet_size, zero_pending);
        lemma_total_length_cons(Packet { length: remain, last: true }, tail);
        if remain == packet_size {
            vstd::arithmetic::div_mod::lemma_mod_self_0(ps);
            vstd::arithmetic::div_mod::lemma_div_basics(ps);
        } else {
            vstd::arithmetic::div_mod::lemma_basic_div(remain as int, ps);
            vstd::arithmetic::div_mod::lemma_small_mod(remain, packet_size);
        }
        vstd::arithmetic::div_mod::lemma_small_mod(0, packet_size);
        if zero_pending {
            lemma_total_length_cons(Packet { length: 0, last: true }, Seq::empty());
            assert(tail =~= seq![Packet { length: 0, last: true }] + Seq::empty());
        }
    } else {
        let rest = (remain - packet_size) as nat;
        let tail = packets(rest, packet_size, zero_pending);
        vstd::arithmetic::div_mod::lemma_mod_sub_multiples_vanish(remain as int, ps);
        vstd::arithmetic::div_mod::lemma_div_minus_one(remain as int, ps);
        lemma_packets(rest, packet_size, zero_pending);
        lemma_total_length_cons(Packet { length: packet_size, last: false }, tail);
        vstd::arithmetic::div_mod::lemma_div_pos_is_pos(rest as int, ps);
        assert(rest % packet_size == remain % packet_size);
        assert(rest / packet_size == remain / packet_size - 1);
        assert(tail.len() >= 1);
        assert forall|i: int| 0 <= i < p.len() implies (#[trigger] p[i]) == if i == 0 {
            Packet { length: packet_size, last: false }
        } else {
            tail[i - 1]
        } by {}
    }
}

/// The packets that an outbound transfer of `size` bytes is cut into add up
/// to `size`; every one but the last is a full packet; the last is empty if
/// and only if `size` is a positive multiple of the packet size, and no other
/// is empty; there are none for an empty transfer, and else one more than
/// `size` holds full packets. `zero_pending` is the debt of an empty packet
/// that an outbound packetiser starts with.
pub proof fn lemma_out_packets(size: nat, packet_size: nat, zero_pending: bool)
    requires
        packet_size > 0,
        zero_pending == (size > 0 && size % packet_size == 0),
    ensures
        ({
            let p = packets(size, packet_size, zero_pending);
            &&& total_length(p) == size
            &&& forall|i: int| 0 <= i < p.len() - 1 ==> (#[trigger] p[i]).length == packet_size
            &&& (p.len() > 0 && p.last().length == 0) <==> (size > 0 && size % packet_size == 0)
            &&& forall|i: int| 0 <= i < p.len() - 1 ==> (#[trigger] p[i]).length != 0
            &&& size == 0 ==> p.len() == 0
            &&& size > 0 ==> p.len() == size / packet_size + 1
        }),
{
    lemma_packets(size, packet_size, zero_pending);
    if size == 0 {
        vstd::arithmetic::div_mod::lemma_basic_div(0, packet_size as int);
        vstd::arithmetic::div_mod::lemma_small_mod(0, packet_size);
    }
}

/// The buffers that an inbound transfer of `size` bytes is received in have
/// room for `size` bytes in all; every one but the last is a full packet; for
/// a transfer of no bytes there is one empty buffer, and else none is empty
/// and the last buffer alone is marked last. `zero_pending` is the debt of
/// an empty buffer that an inbound packetiser starts with.
pub proof fn lemma_in_packets(size: nat, packet_size: nat, zero_pending: bool)
    requires
        packet_size > 0,
        zero_pending == (size == 0),
    ensures
        ({
            let p = packets(size, packet_size, zero_pending);
            &&& total_length(p) == size
            &&& p.len() >= 1
            &&& forall|i: int| 0 <= i < p.len() - 1 ==> (#[trigger] p[i]).length == packet_size
            &&& forall|i: int| 0 <= i < p.len() ==> ((#[trigger] p[i]).last <==> i == p.len() - 1)
            &&& size == 0 ==> p.len() == 1 && p[0].length == 0
            &&& size > 0 ==> forall|i: int| 0 <= i < p.len() ==> (#[trigger] p[i]).length != 0
            &&& size > 0 && size % packet_size == 0 ==> p.len() == size / packet_size
        }),
{
    lemma_packets(size, packet_size, zero_pending);
    vstd::arithmetic::div_mod::lemma_basic_div(0, packet_size as int);
    vstd::arithmetic::div_mod::lemma_small_mod(0, packet_size);
    if size > 0 && size < packet_size {
        vstd::arithmetic::div_mod::lemma_basic_div(size as int, packet_size as int);
        vstd::arithmetic::div_mod::lemma_small_mod(size, packet_size);
    }
    if size >= packet_size {
        vstd::arithmetic::div_mod::lemma_div_non_zero(size as int, packet_size as int);
    }
}

/// A packetiser hands out its pending packets front to back: what is pending
/// is the next packet followed by what is pending once that packet is armed.
pub proof fn lemma_pending_unfolds(v: PacketiserView)
    requires
        v.wf(),
    ensures
        v.next_packet() is None ==> v.pending().len() == 0,
        v.next_packet() matches Some(p) ==> v.pending() == seq![p] + v.armed().pending(),
        v.armed().wf(),
{
    if v.remain > 0 && v.remain <= v.packet_size {
        assert(v.armed().remain == 0);
    }
}

/// The packetiser after `n` packets have been armed.
pub open spec fn armed_times(v: PacketiserView, n: nat) -> PacketiserView
    decreases n,
{
    if n == 0 {
        v
    } else {
        armed_times(v, (n - 1) as nat).armed()
    }
}

/// Data toggles alternate from one armed packet to the next: packet `n` of a
/// transfer, counted from zero, goes into half `n mod 2` and carries DATA0 if
/// `n` is even, DATA1 if it is odd.
pub proof fn lemma_toggle_alternates(v: PacketiserView, n: nat)
    requires
        v.wf(),
        v.next_half == 0,
    ensures
        armed_times(v, n).wf(),
        armed_times(v, n).next_half == n % 2,
        armed_times(v, n).next_pid() == (n % 2 == 1),
        armed_times(v, n + 1).next_pid() == !armed_times(v, n).next_pid(),
    decreases n,
{
    if n > 0 {
        lemma_toggle_alternates(v, (n - 1) as nat);
    }
    reveal_with_fuel(armed_times, 2);
}

/// Whatever the peripheral reports, in however many packets, an inbound
/// depacketiser never takes more bytes than the transfer asked for.
pub proof fn lemma_total_bounded(v: DepacketiserView, regs: Seq<BufferControl>)
    requires
        v.wf(),
    ensures
        v.run(regs).wf(),
        v.run(regs).size == v.size,
        v.total <= v.run(regs).total <= v.size,
    decreases regs.len(),
{
    if regs.len() > 0 {
        lemma_total_bounded(v.step(regs[0]), regs.drop_first());
    }
}

} // verus!
