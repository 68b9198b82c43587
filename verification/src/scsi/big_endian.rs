//! Big-endian integers, as they stand in SCSI commands and replies.

use vstd::prelude::*;

verus! {

/// The number that a sequence of bytes stands for, most significant byte
/// first.
pub open spec fn be_value(b: Seq<u8>) -> nat
    decreases b.len(),
{
    if b.len() == 0 {
        0
    } else {
        be_value(b.drop_last()) * 256 + b.last() as nat
    }
}

/// The `width` bytes that stand for `value`, most significant byte first.
/// A value too large for `width` bytes loses its upper part.
pub open spec fn be_bytes(value: nat, width: nat) -> Seq<u8>
    decreases width,
{
    if width == 0 {
        Seq::empty()
    } else {
        be_bytes(value / 256, (width - 1) as nat).push((value % 256) as u8)
    }
}

/// The number of values that `width` bytes can hold.
pub open spec fn range(width: nat) -> nat
    decreases width,
{
    if width == 0 {
        1
    } else {
        256 * range((width - 1) as nat)
    }
}

/// The bytes of a value are as many as asked for, and stand for the value
/// again as long as it fits.
pub proof fn lemma_be_round_trip(value: nat, width: nat)
    ensures
        be_bytes(value, width).len() == width,
        value < range(width) ==> be_value(be_bytes(value, width)) == value,
    decreases width,
{
    if width > 0 {
        lemma_be_round_trip(value / 256, (width - 1) as nat);
        let b = be_bytes(value, width);
        assert(b.drop_last() =~= be_bytes(value / 256, (width - 1) as nat));
    }
}

/// The number that bytes stand for is below the range of their width, and
/// the bytes of that number are the bytes themselves.
pub proof fn lemma_be_value_bytes(b: Seq<u8>)
    ensures
        be_value(b) < range(b.len()),
        be_bytes(be_value(b), b.len()) == b,
    decreases b.len(),
{
    if b.len() > 0 {
        lemma_be_value_bytes(b.drop_last());
        let v = be_value(b);
        assert(v / 256 == be_value(b.drop_last()));
        assert(be_bytes(v, b.len()) =~= b);
    }
}

/// Byte `i` of the bytes of a value is the value shifted down by the bytes
/// that follow it, modulo 256.
pub proof fn lemma_be_bytes_index(value: nat, width: nat, i: int)
    requires
        0 <= i < width,
    ensures
        be_bytes(value, width).len() == width,
        range((width - 1 - i) as nat) > 0,
        be_bytes(value, width)[i] == (value / range((width - 1 - i) as nat)) % 256,
    decreases width,
{
    lemma_be_round_trip(value, width);
    lemma_range_positive((width - 1 - i) as nat);
    let b = be_bytes(value, width);
    if i < width - 1 {
        let rest = be_bytes(value / 256, (width - 1) as nat);
        lemma_be_bytes_index(value / 256, (width - 1) as nat, i);
        let r = range((width - 2 - i) as nat);
        vstd::arithmetic::div_mod::lemma_div_denominator(value as int, 256, r as int);
        assert(range((width - 1 - i) as nat) == 256 * r);
        assert(b == rest.push((value % 256) as u8));
        assert(b[i] == rest[i]);
        assert((value / 256) / r == value / (256 * r));
    } else {
        assert(range(0) == 1);
        assert(b[i] == (value % 256) as u8);
    }
}

proof fn lemma_range_positive(width: nat)
    ensures
        range(width) > 0,
    decreases width,
{
    if width > 0 {
        lemma_range_positive((width - 1) as nat);
    }
}

/// The two bytes of `x`, most significant first.
pub fn u16_to_be(x: u16) -> (b: [u8; 2])
    ensures
        b@ == be_bytes(x as nat, 2),
        be_value(b@) == x,
{
    let b = [(x / 0x100) as u8, (x % 0x100) as u8];
    proof {
        reveal_with_fuel(range, 3);
        lemma_be_bytes_index(x as nat, 2, 0);
        lemma_be_bytes_index(x as nat, 2, 1);
        assert(b@ =~= be_bytes(x as nat, 2));
        lemma_be_round_trip(x as nat, 2);
    }
    b
}

/// The four bytes of `x`, most significant first.
pub fn u32_to_be(x: u32) -> (b: [u8; 4])
    ensures
        b@ == be_bytes(x as nat, 4),
        be_value(b@) == x,
{
    let b = [
        (x / 0x100_0000) as u8,
        ((x / 0x1_0000) % 0x100) as u8,
        ((x / 0x100) % 0x100) as u8,
        (x % 0x100) as u8,
    ];
    proof {
        reveal_with_fuel(range, 5);
        lemma_be_bytes_index(x as nat, 4, 0);
        lemma_be_bytes_index(x as nat, 4, 1);
        lemma_be_bytes_index(x as nat, 4, 2);
        lemma_be_bytes_index(x as nat, 4, 3);
        assert(b@ =~= be_bytes(x as nat, 4));
        lemma_be_round_trip(x as nat, 4);
    }
    b
}

/// The eight bytes of `x`, most significant first.
pub fn u64_to_be(x: u64) -> (b: [u8; 8])
    ensures
        b@ == be_bytes(x as nat, 8),
        be_value(b@) == x,
{
    let b = [
        (x / 0x100_0000_0000_0000) as u8,
        ((x / 0x1_0000_0000_0000) % 0x100) as u8,
        ((x / 0x100_0000_0000) % 0x100) as u8,
        ((x / 0x1_0000_0000) % 0x100) as u8,
        ((x / 0x100_0000) % 0x100) as u8,
        ((x / 0x1_0000) % 0x100) as u8,
        ((x / 0x100) % 0x100) as u8,
        (x % 0x100) as u8,
    ];
    proof {
        reveal_with_fuel(range, 9);
        lemma_be_bytes_index(x as nat, 8, 0);
        lemma_be_bytes_index(x as nat, 8, 1);
        lemma_be_bytes_index(x as nat, 8, 2);
        lemma_be_bytes_index(x as nat, 8, 3);
        lemma_be_bytes_index(x as nat, 8, 4);
        lemma_be_bytes_index(x as nat, 8, 5);
        lemma_be_bytes_index(x as nat, 8, 6);
        lemma_be_bytes_index(x as nat, 8, 7);
        assert(b@ =~= be_bytes(x as nat, 8));
        lemma_be_round_trip(x as nat, 8);
    }
    b
}

/// The number that `width` bytes stand for, from their bytes one by one.
proof fn lemma_be_value_step(b: Seq<u8>)
    requires
        b.len() > 0,
    ensures
        be_value(b) == be_value(b.drop_last()) * 256 + b.last() as nat,
{
}

/// The number that four bytes stand for, most significant first.
pub fn u32_from_be(b: &[u8; 4]) -> (x: u32)
    ensures
        x == be_value(b@),
{
    proof {
        let s4 = b@;
        let s3 = s4.drop_last();
        let s2 = s3.drop_last();
        let s1 = s2.drop_last();
        let s0 = s1.drop_last();
        lemma_be_value_step(s4);
        lemma_be_value_step(s3);
        lemma_be_value_step(s2);
        lemma_be_value_step(s1);
        assert(be_value(s0) == 0);
    }
    (b[0] as u32) * 0x100_0000 + (b[1] as u32) * 0x1_0000 + (b[2] as u32) * 0x100 + (b[3] as u32)
}

/// The number that eight bytes stand for, most significant first.
pub fn u64_from_be(b: &[u8; 8]) -> (x: u64)
    ensures
        x == be_value(b@),
{
    proof {
        let s8 = b@;
        let s7 = s8.drop_last();
        let s6 = s7.drop_last();
        let s5 = s6.drop_last();
        let s4 = s5.drop_last();
        let s3 = s4.drop_last();
        let s2 = s3.drop_last();
        let s1 = s2.drop_last();
        let s0 = s1.drop_last();
        lemma_be_value_step(s8);
        lemma_be_value_step(s7);
        lemma_be_value_step(s6);
        lemma_be_value_step(s5);
        lemma_be_value_step(s4);
        lemma_be_value_step(s3);
        lemma_be_value_step(s2);
        lemma_be_value_step(s1);
        assert(be_value(s0) == 0);
    }
    (b[0] as u64) * 0x100_0000_0000_0000 + (b[1] as u64) * 0x1_0000_0000_0000 + (b[2] as u64)
        * 0x100_0000_0000 + (b[3] as u64) * 0x1_0000_0000 + (b[4] as u64) * 0x100_0000 + (
    b[5] as u64) * 0x1_0000 + (b[6] as u64) * 0x100 + (b[7] as u64)
}

} // verus!
