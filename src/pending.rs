//! Lazy iteration over a snapshot of a 64-bit pending-interrupt bitmask,
//! lowest bit first.
use vstd::prelude::*;
use vstd::std_specs::bits::{axiom_u64_trailing_zeros, u64_trailing_zeros};

verus! {

/// Whether bit `i` of `m` is set.
pub open spec fn bit_set(m: u64, i: int) -> bool {
    0 <= i < 64 && (m >> (i as u64)) & 1 == 1
}

/// `out` holds, ascending and once each, the set bits of `m` below `bound`.
pub open spec fn lists_bits_below(m: u64, bound: int, out: Seq<usize>) -> bool {
    &&& forall|k: int, l: int| 0 <= k < l < out.len() ==> out[k] < out[l]
    &&& forall|k: int| 0 <= k < out.len() ==> (#[trigger] out[k]) < bound && bit_set(m, out[k] as int)
    &&& forall|i: int| 0 <= i < bound && #[trigger] bit_set(m, i) ==> exists|k: int| 0 <= k < out.len() && (#[trigger] out[k]) == i
}

/// `out` holds, ascending and once each, every set bit of `m`.
pub open spec fn lists_set_bits(m: u64, out: Seq<usize>) -> bool {
    lists_bits_below(m, 64, out)
}

/// The bits of `cur` are those of `orig` from `lo` on.
pub open spec fn suffix_of(orig: u64, cur: u64, lo: int) -> bool {
    forall|i: int| 0 <= i < 64 ==> #[trigger] bit_set(cur, i) == (i >= lo && bit_set(orig, i))
}

/// Clearing the lowest set bit `t` of `m` with `m & (m - 1)` keeps every
/// other bit.
proof fn lemma_clear_lowest(m: u64, t: u64, i: u64)
    requires
        m != 0,
        t < 64,
        (m >> t) & 1 == 1,
        m << vstd::prelude::sub(64, t) == 0,
        i < 64,
    ensures
        (((m & vstd::prelude::sub(m, 1)) >> i) & 1 == 1) == (i != t && (m >> i) & 1 == 1),
{
    assert(m != 0 && t < 64 && (m >> t) & 1 == 1 && m << vstd::prelude::sub(64, t) == 0 && i < 64 ==> ((((m & vstd::prelude::sub(
        m,
        1,
    )) >> i) & 1 == 1) == (i != t && (m >> i) & 1 == 1))) by (bit_vector);
}

/// The pending numbers of one bitmask snapshot.
pub struct PendingIRQs {
    bitmask: u64,
}

impl PendingIRQs {
    /// The bits not yet yielded.
    pub closed spec fn spec_bitmask(&self) -> u64 {
        self.bitmask
    }

    /// Wraps a snapshot.
    pub fn new(bitmask: u64) -> (r: Self)
        ensures
            r.spec_bitmask() == bitmask,
    {
        PendingIRQs { bitmask }
    }

    /// Yields the lowest set bit's position and clears it; `None` once no
    /// bit is left.
    pub fn next(&mut self) -> (r: Option<usize>)
        ensures
            old(self).spec_bitmask() == 0 ==> r is None && final(self).spec_bitmask() == 0,
            old(self).spec_bitmask() != 0 ==> (r matches Some(t) && {
                &&& bit_set(old(self).spec_bitmask(), t as int)
                &&& forall|j: int| 0 <= j < t ==> !#[trigger] bit_set(old(self).spec_bitmask(), j)
                &&& forall|i: int|
                    0 <= i < 64 ==> #[trigger] bit_set(final(self).spec_bitmask(), i) == (i != t
                        && bit_set(old(self).spec_bitmask(), i))
                &&& final(self).spec_bitmask() < old(self).spec_bitmask()
            }),
    {
        if self.bitmask == 0 {
            return None;
        }
        let m = self.bitmask;
        let next = m.trailing_zeros();
        proof {
            axiom_u64_trailing_zeros(m);
            let t = next as u64;
            assert forall|i: int| 0 <= i < 64 implies #[trigger] bit_set(m & vstd::prelude::sub(m, 1), i) == (i
                != t && bit_set(m, i)) by {
                lemma_clear_lowest(m, t, i as u64);
            }
            assert forall|j: int| 0 <= j < t implies !#[trigger] bit_set(m, j) by {
                assert((m >> (j as u64)) & 1u64 == 0u64);
            }
            assert(m != 0 ==> m & vstd::prelude::sub(m, 1) < m) by (bit_vector);
        }
        self.bitmask = m & (m - 1);
        Some(next as usize)
    }

    /// Drains the snapshot: the set bits, ascending, each once.
    pub fn into_vec(self) -> (r: Vec<usize>)
        ensures
            lists_set_bits(self.spec_bitmask(), r@),
    {
        let ghost orig = self.spec_bitmask();
        let mut it = self;
        let mut out: Vec<usize> = Vec::new();
        let ghost mut lo: int = 0;
        loop
            invariant
                orig == self.spec_bitmask(),
                0 <= lo <= 64,
                suffix_of(orig, it.spec_bitmask(), lo),
                lists_bits_below(orig, lo, out@),
            decreases it.spec_bitmask(),
        {
            let ghost cur = it.spec_bitmask();
            match it.next() {
                None => {
                    proof {
                        lemma_drained(orig, cur, lo, out@);
                    }
                    return out;
                },
                Some(t) => {
                    proof {
                        lemma_advance(orig, cur, it.spec_bitmask(), lo, t, out@);
                    }
                    out.push(t);
                    proof {
                        lo = t + 1;
                    }
                },
            }
        }
    }
}

/// One step of the drain: from the state before yielding `t` to the state
/// after pushing it.
pub(crate) proof fn lemma_advance(orig: u64, cur: u64, next: u64, lo: int, t: usize, out: Seq<usize>)
    requires
        0 <= lo <= 64,
        suffix_of(orig, cur, lo),
        lists_bits_below(orig, lo, out),
        bit_set(cur, t as int),
        forall|j: int| 0 <= j < t ==> !#[trigger] bit_set(cur, j),
        forall|i: int| 0 <= i < 64 ==> #[trigger] bit_set(next, i) == (i != t && bit_set(cur, i)),
    ensures
        lo <= t < 64,
        suffix_of(orig, next, t + 1),
        lists_bits_below(orig, t + 1, out.push(t)),
{
    let o2 = out.push(t);
    assert(bit_set(orig, t as int));
    assert forall|i: int| 0 <= i < t + 1 && #[trigger] bit_set(orig, i) implies exists|k: int|
        0 <= k < o2.len() && (#[trigger] o2[k]) == i by {
        if i == t {
            assert(o2[out.len() as int] == i);
        } else if i < lo {
            let k = choose|k: int| 0 <= k < out.len() && (#[trigger] out[k]) == i;
            assert(o2[k] == i);
        } else {
            assert(bit_set(cur, i));
        }
    }
    assert forall|k: int| 0 <= k < o2.len() implies (#[trigger] o2[k]) < t + 1 && bit_set(
        orig,
        o2[k] as int,
    ) by {
        if k < out.len() {
            assert(o2[k] == out[k]);
        }
    }
}

/// Once nothing is left of the snapshot, what was yielded lists every set
/// bit of the original mask, and no bit from `lo` on was set.
pub(crate) proof fn lemma_drained(orig: u64, cur: u64, lo: int, out: Seq<usize>)
    requires
        cur == 0,
        0 <= lo <= 64,
        suffix_of(orig, cur, lo),
        lists_bits_below(orig, lo, out),
    ensures
        lists_bits_below(orig, 64, out),
        forall|i: int| lo <= i < 64 ==> !#[trigger] bit_set(orig, i),
{
    assert(forall|j: u64| (0u64 >> j) & 1u64 == 0u64) by (bit_vector);
    assert forall|i: int| lo <= i < 64 implies !#[trigger] bit_set(orig, i) by {
        assert(!bit_set(cur, i));
    }
    assert forall|i: int| 0 <= i < 64 && #[trigger] bit_set(orig, i) implies exists|k: int|
        0 <= k < out.len() && (#[trigger] out[k]) == i by {
        assert(i < lo);
    }
}

} // verus!
