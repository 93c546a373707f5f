//! Bitboards: a `u128` holds one bit per cell index of the 11 x 11 grid
//! (indices 0..=120), and the helpers here walk the set bits of such a
//! board from the lowest index upwards.
use vstd::prelude::*;

verus! {

/// Number of trailing zero bits of `b`; 128 when `b` is zero.
pub open spec fn spec_trailing_zeros(b: u128) -> u32
    decreases b,
{
    if b == 0 {
        128
    } else if b & 1 != 0 {
        0
    } else {
        (1 + spec_trailing_zeros(b / 2)) as u32
    }
}

/// `b` with its lowest set bit cleared (`b & (b - 1)`); zero stays zero.
pub open spec fn clear_lowest(b: u128) -> u128 {
    if b == 0 {
        0
    } else {
        b & ((b - 1) as u128)
    }
}

/// The indices of the set bits of `b`, lowest first.
pub open spec fn bit_indices(b: u128) -> Seq<u8>
    decreases b,
{
    if b == 0 {
        Seq::empty()
    } else {
        proof {
            lemma_clear_lowest_decreases(b);
        }
        seq![spec_trailing_zeros(b) as u8] + bit_indices(clear_lowest(b))
    }
}

/// True when no bit at index 121 or above is set: every set bit names a
/// cell of the 11 x 11 grid.
pub open spec fn within_grid(b: u128) -> bool {
    b >> 121u128 == 0
}

/// `u128::trailing_zeros` from std: the number of zero bits below the lowest
/// set bit, and 128 for zero. The contract states exactly that count,
/// through the recursive definition `spec_trailing_zeros`.
#[verifier::external_body]
pub(crate) fn trailing_zeros(b: u128) -> (r: u32)
    ensures
        r == spec_trailing_zeros(b),
{
    b.trailing_zeros()
}

/// Clearing the lowest set bit makes a nonzero bitboard smaller.
pub proof fn lemma_clear_lowest_decreases(b: u128)
    by (bit_vector)
    requires
        b != 0,
    ensures
        b & ((b - 1) as u128) < b,
{
}

proof fn lemma_halve(b: u128, t: u32)
    by (bit_vector)
    requires
        b != 0,
        b & 1 == 0,
        t < 128,
        ((b >> 1u128) >> t) & 1 == 1,
        ((b >> 1u128) >> t) << t == (b >> 1u128),
    ensures
        b / 2 == b >> 1u128,
        t < 127,
        (b >> (t + 1)) & 1 == 1,
        (b >> (t + 1)) << (t + 1) == b,
{
}

proof fn lemma_low_bit(b: u128)
    by (bit_vector)
    ensures
        b & 1 != 0 ==> (b >> 0u32) & 1 == 1 && (b >> 0u32) << 0u32 == b,
        b & 1 == 0 ==> b / 2 == b >> 1u128,
        b != 0 && b & 1 == 0 ==> b >> 1u128 != 0,
{
}

/// The lowest set bit of a nonzero `b` sits at `spec_trailing_zeros(b)`, and
/// nothing of `b` lies below it.
pub proof fn lemma_trailing_zeros(b: u128)
    requires
        b != 0,
    ensures
        spec_trailing_zeros(b) < 128,
        (b >> spec_trailing_zeros(b)) & 1 == 1,
        (b >> spec_trailing_zeros(b)) << spec_trailing_zeros(b) == b,
    decreases b,
{
    lemma_low_bit(b);
    if b & 1 == 0 {
        let h = b / 2;
        assert(h < b);
        lemma_trailing_zeros(h);
        lemma_halve(b, spec_trailing_zeros(h));
    }
}

proof fn lemma_split_lowest(b: u128, t: u32)
    by (bit_vector)
    requires
        b != 0,
        t < 128,
        (b >> t) & 1 == 1,
        (b >> t) << t == b,
    ensures
        (b & ((b - 1) as u128)) | (1u128 << t) == b,
        (b & ((b - 1) as u128)) & (1u128 << t) == 0,
        (b & ((b - 1) as u128)) & b == (b & ((b - 1) as u128)),
        b >> 121u128 == 0 ==> t < 121 && (b & ((b - 1) as u128)) >> 121u128 == 0,
{
}

/// Clearing the lowest set bit of a nonzero `b` removes exactly the bit at
/// `spec_trailing_zeros(b)`.
pub proof fn lemma_clear_lowest(b: u128)
    requires
        b != 0,
    ensures
        spec_trailing_zeros(b) < 128,
        (b >> spec_trailing_zeros(b)) & 1 == 1,
        clear_lowest(b) | (1u128 << spec_trailing_zeros(b)) == b,
        clear_lowest(b) & (1u128 << spec_trailing_zeros(b)) == 0,
        clear_lowest(b) & b == clear_lowest(b),
        clear_lowest(b) < b,
        within_grid(b) ==> spec_trailing_zeros(b) < 121 && within_grid(clear_lowest(b)),
        bit_indices(b) == seq![spec_trailing_zeros(b) as u8] + bit_indices(clear_lowest(b)),
{
    lemma_trailing_zeros(b);
    lemma_split_lowest(b, spec_trailing_zeros(b));
    lemma_clear_lowest_decreases(b);
}

proof fn lemma_bit_of_subset(b: u128, c: u128, i: u8)
    by (bit_vector)
    requires
        c & b == c,
        i < 128,
        (c >> i) & 1 == 1,
    ensures
        (b >> i) & 1 == 1,
{
}

/// Every index listed by `bit_indices(b)` is a set bit of `b`.
pub proof fn lemma_bit_indices_are_set(b: u128, k: int)
    requires
        0 <= k < bit_indices(b).len(),
    ensures
        bit_indices(b)[k] < 128,
        (b >> bit_indices(b)[k]) & 1 == 1,
    decreases b,
{
    lemma_clear_lowest(b);
    if k > 0 {
        let c = clear_lowest(b);
        lemma_bit_indices_are_set(c, k - 1);
        lemma_bit_of_subset(b, c, bit_indices(c)[k - 1]);
    }
}

proof fn lemma_above_lowest(b: u128, c: u128, t: u32, e: u8)
    by (bit_vector)
    requires
        t < 128,
        e < 128,
        (b >> t) << t == b,
        c & b == c,
        c & (1u128 << t) == 0,
        (c >> e) & 1 == 1,
    ensures
        e > t,
{
}

/// `bit_indices(b)` lists the set bits of `b` in strictly increasing order.
pub proof fn lemma_bit_indices_increasing(b: u128)
    ensures
        forall|i: int, j: int|
            0 <= i < j < bit_indices(b).len() ==> bit_indices(b)[i] < bit_indices(b)[j],
    decreases b,
{
    if b != 0 {
        let c = clear_lowest(b);
        let t = spec_trailing_zeros(b);
        lemma_clear_lowest(b);
        lemma_trailing_zeros(b);
        lemma_bit_indices_increasing(c);
        assert forall|k: int| 0 <= k < bit_indices(c).len() implies t < bit_indices(c)[k] by {
            lemma_bit_indices_are_set(c, k);
            lemma_above_lowest(b, c, t, bit_indices(c)[k]);
        }
        assert forall|i: int, j: int|
            0 <= i < j < bit_indices(b).len() implies bit_indices(b)[i] < bit_indices(b)[j] by {
            if i > 0 {
                assert(bit_indices(b)[i] == bit_indices(c)[i - 1]);
            }
            assert(bit_indices(b)[j] == bit_indices(c)[j - 1]);
        }
    }
}

proof fn lemma_other_bit_kept(b: u128, c: u128, t: u32, i: u8)
    by (bit_vector)
    requires
        t < 128,
        i < 128,
        i != t,
        c | (1u128 << t) == b,
        (b >> i) & 1 == 1,
    ensures
        (c >> i) & 1 == 1,
{
}

/// Every set bit of `b` is listed by `bit_indices(b)`.
pub proof fn lemma_set_bits_are_listed(b: u128, i: u8)
    requires
        i < 128,
        (b >> i) & 1 == 1,
    ensures
        bit_indices(b).contains(i),
    decreases b,
{
    lemma_zero_has_no_bits(i);
    lemma_clear_lowest(b);
    let t = spec_trailing_zeros(b);
    if i as u32 == t {
        assert(bit_indices(b)[0] == i);
    } else {
        let c = clear_lowest(b);
        lemma_other_bit_kept(b, c, t, i);
        lemma_set_bits_are_listed(c, i);
        let k = choose|k: int| 0 <= k < bit_indices(c).len() && bit_indices(c)[k] == i;
        assert(bit_indices(b)[k + 1] == i);
    }
}

proof fn lemma_zero_has_no_bits(i: u8)
    by (bit_vector)
    ensures
        (0u128 >> i) & 1 == 0,
{
}

} // verus!
