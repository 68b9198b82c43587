//! The bounded pool of pipe slots.
//!
//! A pool hands out the lowest free slot. When none is free it says so, and
//! the caller either reports the failure or parks the request until a slot
//! comes back: the pool itself never waits, and never takes a slot back by
//! force.

use vstd::prelude::*;

verus! {

/// Whether bit `i` of `x` is set.
pub open spec fn bit(x: u32, i: u32) -> bool {
    (x >> i) & 1 == 1
}

/// The set of the indices below 32 whose bit is set in `x`.
pub open spec fn bits_to_set(x: u32) -> Set<int> {
    Set::new(|i: int| 0 <= i < 32 && bit(x, i as u32))
}

/// The slots below `total`, all of them.
pub open spec fn all_slots(total: nat) -> Set<int> {
    Set::new(|i: int| 0 <= i < total)
}

/// Whether every slot of a pool of `total` slots is taken in `taken`.
pub open spec fn exhausted(total: nat, taken: Set<int>) -> bool {
    forall|i: int| 0 <= i < total ==> taken.contains(i)
}

/// Whether `n` is the slot that a request is granted: the lowest free one.
pub open spec fn is_grant(total: nat, taken: Set<int>, n: int) -> bool {
    &&& 0 <= n < total
    &&& !taken.contains(n)
    &&& forall|i: int| 0 <= i < n ==> taken.contains(i)
}

proof fn lemma_set_bit(x: u32, n: u32, i: u32)
    by (bit_vector)
    requires
        n < 32,
        i < 32,
    ensures
        ((x | (1u32 << n)) >> i) & 1 == 1 <==> (i == n || (x >> i) & 1 == 1),
{
}

proof fn lemma_clear_bit(x: u32, n: u32, i: u32)
    by (bit_vector)
    requires
        n < 32,
        i < 32,
    ensures
        ((x & !(1u32 << n)) >> i) & 1 == 1 <==> (i != n && (x >> i) & 1 == 1),
{
}

proof fn lemma_no_bit(i: u32)
    by (bit_vector)
    requires
        i < 32,
    ensures
        (0u32 >> i) & 1 == 0,
{
}

proof fn lemma_bit_is_zero_or_one(x: u32, i: u32)
    by (bit_vector)
    requires
        i < 32,
    ensures
        (x >> i) & 1 == 0 || (x >> i) & 1 == 1,
{
}

/// Sets bit `n` of a bitmap.
pub fn set_bit(x: u32, n: u8) -> (r: u32)
    requires
        n < 32,
    ensures
        r == x | (1u32 << (n as u32)),
        bits_to_set(r) == bits_to_set(x).insert(n as int),
        forall|i: u32| i < 32 ==> (bit(r, i) <==> i == n || bit(x, i)),
{
    let r = x | (1u32 << (n as u32));
    proof {
        assert forall|i: u32| i < 32 implies (bit(r, i) <==> i == n || bit(x, i)) by {
            lemma_set_bit(x, n as u32, i);
        }
        assert(bits_to_set(r) =~= bits_to_set(x).insert(n as int));
    }
    r
}

/// Clears bit `n` of a bitmap.
pub fn clear_bit(x: u32, n: u8) -> (r: u32)
    requires
        n < 32,
    ensures
        bits_to_set(r) == bits_to_set(x).remove(n as int),
        forall|i: u32| i < 32 ==> (bit(r, i) <==> i != n && bit(x, i)),
{
    let r = x & !(1u32 << (n as u32));
    proof {
        assert forall|i: u32| i < 32 implies (bit(r, i) <==> i != n && bit(x, i)) by {
            lemma_clear_bit(x, n as u32, i);
        }
        assert(bits_to_set(r) =~= bits_to_set(x).remove(n as int));
    }
    r
}

/// Tests bit `n` of a bitmap.
pub fn test_bit(x: u32, n: u8) -> (r: bool)
    requires
        n < 32,
    ensures
        r == bit(x, n as u32),
        r == bits_to_set(x).contains(n as int),
{
    proof {
        lemma_bit_is_zero_or_one(x, n as u32);
    }
    (x >> (n as u32)) & 1 == 1
}

/// A pool of `total` slots, numbered from zero.
pub struct Pool {
    total: u8,
    allocated: u32,
}

impl View for Pool {
    type V = Set<int>;

    /// The slots that are taken.
    closed spec fn view(&self) -> Set<int> {
        bits_to_set(self.allocated)
    }
}

impl Pool {
    #[verifier::type_invariant]
    spec fn inv(self) -> bool {
        &&& self.total <= 32
        &&& forall|i: u32| self.total <= i < 32 ==> !bit(self.allocated, i)
    }

    /// Number of slots, fixed when the pool is made.
    pub closed spec fn size(&self) -> nat {
        self.total as nat
    }

    /// What holds of every pool: it has at most 32 slots, and only slots of
    /// its own are taken.
    pub open spec fn wf(&self) -> bool {
        &&& self.size() <= 32
        &&& self@.subset_of(all_slots(self.size()))
    }

    /// A pool of `total` slots, all free.
    pub fn new(total: u8) -> (p: Pool)
        requires
            total <= 32,
        ensures
            p.size() == total,
            p@ == Set::<int>::empty(),
            p.wf(),
    {
        proof {
            assert forall|i: u32| i < 32 implies !bit(0u32, i) by {
                lemma_no_bit(i);
            }
            assert(bits_to_set(0u32) =~= Set::<int>::empty());
        }
        Pool { total, allocated: 0 }
    }

    /// Number of slots.
    pub fn total(&self) -> (t: u8)
        ensures
            t == self.size(),
            self.wf(),
    {
        proof {
            use_type_invariant(self);
            self.lemma_wf();
        }
        self.total
    }

    proof fn lemma_wf(self)
        requires
            self.inv(),
        ensures
            self.wf(),
    {
        assert forall|i: int| self@.contains(i) implies all_slots(self.size()).contains(i) by {
            assert(bit(self.allocated, i as u32));
        }
    }

    /// Whether slot `n` is taken.
    pub fn is_allocated(&self, n: u8) -> (r: bool)
        ensures
            r == self@.contains(n as int),
    {
        proof {
            use_type_invariant(self);
        }
        if n < self.total {
            test_bit(self.allocated, n)
        } else {
            proof {
                self.lemma_wf();
            }
            false
        }
    }

    /// Takes the lowest free slot. `None` means that every slot is taken: a
    /// request that may wait is parked until a slot is released, one that
    /// may not is refused.
    pub fn try_alloc(&mut self) -> (r: Option<u8>)
        ensures
            final(self).size() == old(self).size(),
            old(self).wf(),
            final(self).wf(),
            r is None <==> exhausted(old(self).size(), old(self)@),
            r is None ==> final(self)@ == old(self)@,
            r matches Some(n) ==> is_grant(old(self).size(), old(self)@, n as int) && final(self)@
                == old(self)@.insert(n as int),
    {
        proof {
            use_type_invariant(&*self);
            self.lemma_wf();
        }
        let mut n: u8 = 0;
        while n < self.total
            invariant
                n <= self.total <= 32,
                *self == *old(self),
                self.inv(),
                forall|i: int| 0 <= i < n ==> self@.contains(i),
            decreases self.total - n,
        {
            if !test_bit(self.allocated, n) {
                let allocated = set_bit(self.allocated, n);
                *self = Pool { total: self.total, allocated };
                proof {
                    self.lemma_wf();
                }
                return Some(n);
            }
            n += 1;
        }
        None
    }

    /// Gives slot `n` back. Releasing a slot that is free, or that the pool
    /// does not have, changes nothing.
    pub fn dealloc(&mut self, n: u8)
        ensures
            final(self).size() == old(self).size(),
            final(self).wf(),
            final(self)@ == old(self)@.remove(n as int),
    {
        proof {
            use_type_invariant(&*self);
            self.lemma_wf();
        }
        if n < self.total {
            let allocated = clear_bit(self.allocated, n);
            *self = Pool { total: self.total, allocated };
            proof {
                self.lemma_wf();
            }
        } else {
            assert(self@.remove(n as int) =~= self@);
        }
    }
}

/// The slots that one holder has taken from a pool, so that it can walk
/// them and give them back together.
pub struct MultiPooled {
    bitset: u32,
}

impl View for MultiPooled {
    type V = Set<int>;

    /// The slots held.
    open spec fn view(&self) -> Set<int> {
        bits_to_set(self.spec_bits())
    }
}

impl MultiPooled {
    /// The slots held, as a bitmap: bit `n` for slot `n`.
    pub closed spec fn spec_bits(&self) -> u32 {
        self.bitset
    }

    /// A holder of no slots.
    pub fn new() -> (m: MultiPooled)
        ensures
            m.spec_bits() == 0,
            m@ == Set::<int>::empty(),
    {
        proof {
            assert forall|i: u32| i < 32 implies !bit(0u32, i) by {
                lemma_no_bit(i);
            }
            assert(bits_to_set(0u32) =~= Set::<int>::empty());
        }
        MultiPooled { bitset: 0 }
    }

    /// Takes the lowest free slot of `pool`, if it is below `limit`, and adds
    /// it to those held. `None` if the pool has no such slot free, and then
    /// nothing changes.
    pub fn try_alloc(&mut self, pool: &mut Pool, limit: u8) -> (r: Option<u8>)
        ensures
            final(pool).size() == old(pool).size(),
            final(pool).wf(),
            r is Some <==> exists|n: int| is_grant(old(pool).size(), old(pool)@, n) && n < limit,
            r is None ==> final(pool)@ == old(pool)@ && final(self).spec_bits() == old(
                self,
            ).spec_bits(),
            r matches Some(n) ==> {
                &&& n < limit
                &&& is_grant(old(pool).size(), old(pool)@, n as int)
                &&& final(pool)@ == old(pool)@.insert(n as int)
                &&& final(self).spec_bits() == old(self).spec_bits() | (1u32 << (n as u32))
                &&& final(self)@ == old(self)@.insert(n as int)
            },
    {
        match pool.try_alloc() {
            Some(n) => {
                if n < limit {
                    self.bitset = set_bit(self.bitset, n);
                    Some(n)
                } else {
                    pool.dealloc(n);
                    assert(pool@ =~= old(pool)@);
                    assert forall|m: int| is_grant(old(pool).size(), old(pool)@, m) implies m
                        == n by {
                        if m < n {
                            assert(old(pool)@.contains(m));
                        } else if n < m {
                            assert(old(pool)@.contains(n as int));
                        }
                    }
                    None
                }
            },
            None => None,
        }
    }

    /// Whether slot `n` is held.
    pub fn contains(&self, n: u8) -> (r: bool)
        ensures
            r == self@.contains(n as int),
    {
        if n < 32 {
            test_bit(self.bitset, n)
        } else {
            false
        }
    }

    /// The slots held, as a bitmap: bit `n` for slot `n`.
    #[verifier::when_used_as_spec(spec_bits)]
    pub fn bits(&self) -> (b: u32)
        ensures
            b == self.spec_bits(),
    {
        self.bitset
    }

    /// Gives slot `n` back to `pool` if it is held; else changes nothing.
    pub fn dealloc(&mut self, pool: &mut Pool, n: u8)
        ensures
            final(pool).size() == old(pool).size(),
            final(pool).wf(),
            old(self)@.contains(n as int) ==> final(self)@ == old(self)@.remove(n as int)
                && final(pool)@ == old(pool)@.remove(n as int),
            !old(self)@.contains(n as int) ==> final(self).spec_bits() == old(self).spec_bits()
                && final(pool)@ == old(pool)@,
    {
        proof {
            use_type_invariant(&*pool);
            pool.lemma_wf();
        }
        if self.contains(n) {
            self.bitset = clear_bit(self.bitset, n);
            pool.dealloc(n);
        }
    }

    /// Gives every slot held back to `pool`.
    pub fn release(&mut self, pool: &mut Pool)
        ensures
            final(pool).size() == old(pool).size(),
            final(pool).wf(),
            final(self)@ == Set::<int>::empty(),
            final(pool)@ == old(pool)@.difference(old(self)@),
    {
        proof {
            use_type_invariant(&*pool);
            pool.lemma_wf();
        }
        let mut n: u8 = 0;
        while n < 32
            invariant
                n <= 32,
                pool.size() == old(pool).size(),
                pool.wf(),
                forall|i: int| 0 <= i < n ==> !self@.contains(i),
                forall|i: int| n <= i < 32 ==> (self@.contains(i) <==> old(self)@.contains(i)),
                forall|i: int|
                    pool@.contains(i) <==> old(pool)@.contains(i) && !(0 <= i < n && old(
                        self,
                    )@.contains(i)),
            decreases 32 - n,
        {
            self.dealloc(pool, n);
            n += 1;
        }
        proof {
            assert(self@ =~= Set::<int>::empty());
            assert(pool@ =~= old(pool)@.difference(old(self)@));
        }
    }
}

/// With every slot taken, a request is not granted.
pub proof fn lemma_exhausted_pool_suspends(total: nat, taken: Set<int>, n: int)
    requires
        exhausted(total, taken),
    ensures
        !is_grant(total, taken, n),
{
}

/// The slots `0..k` are what `k` requests to an empty pool have taken.
pub open spec fn first_slots(k: nat) -> Set<int> {
    Set::new(|i: int| 0 <= i < k)
}

/// Requests to an empty pool of `total` slots are granted one slot after the
/// other, in order: request `k`, counted from zero, gets slot `k` as long as
/// `k < total`, and the request after the last slot is not granted.
pub proof fn lemma_requests_fill_pool(total: nat, k: nat)
    requires
        k <= total,
    ensures
        k < total ==> is_grant(total, first_slots(k), k as int),
        k < total ==> first_slots(k).insert(k as int) == first_slots(k + 1),
        k < total ==> !exhausted(total, first_slots(k)),
        k == total ==> exhausted(total, first_slots(k)),
{
    if k < total {
        assert(first_slots(k).insert(k as int) =~= first_slots(k + 1));
        assert(!first_slots(k).contains(k as int));
    }
}

/// When a slot of an exhausted pool is released, the next request is granted
/// that very slot, and the pool is exhausted again: exactly one parked
/// request can proceed.
pub proof fn lemma_release_admits_one(total: nat, taken: Set<int>, n: int)
    requires
        exhausted(total, taken),
        0 <= n < total,
    ensures
        is_grant(total, taken.remove(n), n),
        forall|m: int| is_grant(total, taken.remove(n), m) ==> m == n,
        exhausted(total, taken.remove(n).insert(n)),
{
}

} // verus!
