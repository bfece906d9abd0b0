//! Sets of small indices held in the bits of a `u32`, used for the sets of change kinds.
use vstd::prelude::*;

verus! {

/// Whether bit `i` of `m` is set.
pub open spec fn has_bit(m: u32, i: nat) -> bool {
    i < 32 && (m >> (i as u32)) & 1 == 1
}

/// The set bits of `m` below `n`, in increasing order.
pub open spec fn bit_positions(m: u32, n: nat) -> Seq<nat>
    decreases n,
{
    if n == 0 {
        Seq::empty()
    } else if has_bit(m, (n - 1) as nat) {
        bit_positions(m, (n - 1) as nat).push((n - 1) as nat)
    } else {
        bit_positions(m, (n - 1) as nat)
    }
}

/// Membership in `bit_positions`, which is strictly increasing and holds no duplicates.
pub proof fn lemma_bit_positions(m: u32, n: nat)
    ensures
        forall|i: nat| #[trigger] bit_positions(m, n).contains(i) <==> (i < n && has_bit(m, i)),
        forall|a: int, b: int|
            0 <= a < b < bit_positions(m, n).len() ==> bit_positions(m, n)[a] < bit_positions(
                m,
                n,
            )[b],
        forall|a: int| 0 <= a < bit_positions(m, n).len() ==> bit_positions(m, n)[a] < n,
        bit_positions(m, n).no_duplicates(),
    decreases n,
{
    if n > 0 {
        let p = bit_positions(m, (n - 1) as nat);
        lemma_bit_positions(m, (n - 1) as nat);
        if has_bit(m, (n - 1) as nat) {
            let q = p.push((n - 1) as nat);
            assert forall|i: nat| q.contains(i) <==> (i < n && has_bit(m, i)) by {
                if q.contains(i) {
                    let k = choose|k: int| 0 <= k < q.len() && q[k] == i;
                    if k < p.len() {
                        assert(p.contains(i));
                    }
                }
                if i < n && has_bit(m, i) {
                    if i < n - 1 {
                        assert(p.contains(i));
                        let k = choose|k: int| 0 <= k < p.len() && p[k] == i;
                        assert(q[k] == i);
                    } else {
                        assert(q[q.len() - 1] == i);
                    }
                }
            }
        }
    }
}

/// Bits of a union are the bits of either side.
pub proof fn lemma_bit_or(a: u32, b: u32, i: u32)
    requires
        i < 32,
    ensures
        ((a | b) >> i) & 1 == 1 <==> ((a >> i) & 1 == 1 || (b >> i) & 1 == 1),
{
    assert(((a | b) >> i) & 1 == 1 <==> ((a >> i) & 1 == 1 || (b >> i) & 1 == 1)) by (bit_vector)
        requires
            i < 32,
    ;
}

/// Bits of a difference are the bits of the left side missing from the right one.
pub proof fn lemma_bit_and_not(a: u32, b: u32, i: u32)
    requires
        i < 32,
    ensures
        ((a & !b) >> i) & 1 == 1 <==> ((a >> i) & 1 == 1 && (b >> i) & 1 != 1),
{
    assert(((a & !b) >> i) & 1 == 1 <==> ((a >> i) & 1 == 1 && (b >> i) & 1 != 1)) by (bit_vector)
        requires
            i < 32,
    ;
}

/// The only bit of `1 << j` is bit `j`.
pub proof fn lemma_bit_single(j: u32, i: u32)
    requires
        i < 32,
        j < 32,
    ensures
        (((1u32 << j) >> i) & 1 == 1) <==> i == j,
{
    assert((((1u32 << j) >> i) & 1 == 1) <==> i == j) by (bit_vector)
        requires
            i < 32,
            j < 32,
    ;
}

/// No bit of zero is set.
pub proof fn lemma_bit_zero(i: u32)
    requires
        i < 32,
    ensures
        ((0u32 >> i) & 1) != 1,
{
    assert(((0u32 >> i) & 1) != 1) by (bit_vector)
        requires
            i < 32,
    ;
}

/// A value with no bit at or above `n` is determined by its bits below `n`.
pub proof fn lemma_bits_determine(a: u32, b: u32, n: u32)
    requires
        n < 32,
        a >> n == 0,
        b >> n == 0,
        forall|i: nat| i < n ==> (has_bit(a, i) <==> has_bit(b, i)),
    ensures
        a == b,
    decreases n,
{
    if n == 0 {
        assert(a >> 0u32 == a && b >> 0u32 == b) by (bit_vector);
    } else {
        let a1 = a >> 1u32;
        let b1 = b >> 1u32;
        assert(a1 >> ((n - 1) as u32) == 0 && b1 >> ((n - 1) as u32) == 0) by (bit_vector)
            requires
                a1 == a >> 1u32,
                b1 == b >> 1u32,
                1 <= n < 32,
                a >> n == 0,
                b >> n == 0,
        ;
        assert forall|i: nat| i < n - 1 implies (has_bit(a1, i) <==> has_bit(b1, i)) by {
            let j = i as u32;
            assert(((a1 >> j) & 1 == 1) == ((a >> ((j + 1) as u32)) & 1 == 1)) by (bit_vector)
                requires
                    a1 == a >> 1u32,
                    j < 31,
            ;
            assert(((b1 >> j) & 1 == 1) == ((b >> ((j + 1) as u32)) & 1 == 1)) by (bit_vector)
                requires
                    b1 == b >> 1u32,
                    j < 31,
            ;
            assert(has_bit(a, (i + 1) as nat) <==> has_bit(b, (i + 1) as nat));
        }
        lemma_bits_determine(a1, b1, (n - 1) as u32);
        assert(has_bit(a, 0) <==> has_bit(b, 0));
        assert(a == b) by (bit_vector)
            requires
                a >> 1u32 == b >> 1u32,
                ((a >> 0u32) & 1 == 1) == ((b >> 0u32) & 1 == 1),
        ;
    }
}

/// Tests bit `i` of `m`.
pub fn test_bit(m: u32, i: u32) -> (r: bool)
    requires
        i < 32,
    ensures
        r == has_bit(m, i as nat),
{
    (m >> i) & 1 == 1
}

} // verus!
