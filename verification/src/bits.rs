//! Bit-level model of a 64-bit board: the `bit` predicate, bit counting,
//! the least-set-bit index, and the lemmas that relate them to the machine
//! operations used by the engine.

use vstd::prelude::*;

verus! {

/// True when bit `i` of `b` is set, i.e. when square `i` is occupied on
/// the board `b`.
pub open spec fn bit(b: u64, i: u64) -> bool {
    b & (1u64 << i) != 0
}

/// `b` with bit `i` set.
pub open spec fn with_bit(b: u64, i: u64) -> u64 {
    b | (1u64 << i)
}

/// `b` with bit `i` cleared.
pub open spec fn without_bit(b: u64, i: u64) -> u64 {
    b & !(1u64 << i)
}

/// `b` with bit `from` cleared and bit `to` set, the board after a piece
/// moved between the two squares.
pub open spec fn moved_bit(b: u64, from: u64, to: u64) -> u64 {
    with_bit(without_bit(b, from), to)
}

/// Number of set bits among bits `0 .. n` of `b`.
pub open spec fn popcnt_below(b: u64, n: int) -> int
    decreases n,
{
    if n <= 0 {
        0
    } else {
        popcnt_below(b, n - 1) + if bit(b, (n - 1) as u64) {
            1int
        } else {
            0int
        }
    }
}

/// Number of set bits of `b`: how many squares the board occupies.
pub open spec fn popcnt(b: u64) -> int {
    popcnt_below(b, 64)
}

/// Index of the least set bit of `b` among `n .. 64`, or 64 when none is.
pub open spec fn lsb_from(b: u64, n: u64) -> u64
    decreases 64 - n,
{
    if n >= 64 {
        64
    } else if bit(b, n) {
        n
    } else {
        lsb_from(b, (n + 1) as u64)
    }
}

/// Index of the least set bit of `b`, or 64 when `b == 0`.
pub open spec fn lsb(b: u64) -> u64 {
    lsb_from(b, 0)
}

/// How each bit of `b | m`, `b & m`, `with_bit`, `without_bit` and a
/// one-bit board relates to the bits of the operands.
pub proof fn lemma_bit_basics()
    by (bit_vector)
    ensures
        forall|a: u64, m: u64, i: u64| i < 64 ==> #[trigger] bit(a | m, i) == (bit(a, i) || bit(m, i)),
        forall|a: u64, m: u64, i: u64| i < 64 ==> #[trigger] bit(a & m, i) == (bit(a, i) && bit(m, i)),
        forall|a: u64, i: u64, j: u64|
            i < 64 && j < 64 ==> #[trigger] bit(with_bit(a, i), j) == (i == j || bit(a, j)),
        forall|a: u64, i: u64, j: u64|
            i < 64 && j < 64 ==> #[trigger] bit(without_bit(a, i), j) == (i != j && bit(a, j)),
        forall|i: u64, j: u64| i < 64 && j < 64 ==> #[trigger] bit(1u64 << i, j) == (i == j),
        forall|i: u64, j: u64| i < 64 && j < 64 ==> #[trigger] bit(!(1u64 << i), j) == (i != j),
        forall|i: u64| i < 64 ==> !#[trigger] bit(0u64, i),
{
}

/// The mask that keeps bits `0 .. n`.
pub open spec fn low_mask(n: u64) -> u64 {
    if n >= 64 {
        0xFFFF_FFFF_FFFF_FFFFu64
    } else {
        ((1u64 << n) - 1) as u64
    }
}

proof fn lemma_ext_below(a: u64, m: u64, n: u64)
    requires
        n <= 64,
        forall|i: u64| i < n ==> bit(a, i) == bit(m, i),
    ensures
        a & low_mask(n) == m & low_mask(n),
    decreases n,
{
    if n == 0 {
        assert(a & low_mask(0) == m & low_mask(0)) by (bit_vector);
    } else {
        lemma_ext_below(a, m, (n - 1) as u64);
        let k = (n - 1) as u64;
        assert(bit(a, k) == bit(m, k));
        assert(a & low_mask(n) == (a & low_mask((n - 1) as u64)) | (if bit(a, k) {
            1u64 << k
        } else {
            0u64
        })) by (bit_vector)
            requires
                1 <= n <= 64,
                k == n - 1,
        ;
        assert(m & low_mask(n) == (m & low_mask((n - 1) as u64)) | (if bit(m, k) {
            1u64 << k
        } else {
            0u64
        })) by (bit_vector)
            requires
                1 <= n <= 64,
                k == n - 1,
        ;
    }
}

/// Two boards whose 64 bits agree are the same value.
pub proof fn lemma_bit_ext(a: u64, m: u64)
    requires
        forall|i: u64| i < 64 ==> bit(a, i) == bit(m, i),
    ensures
        a == m,
{
    lemma_ext_below(a, m, 64);
    assert(a & low_mask(64) == a && m & low_mask(64) == m) by (bit_vector);
}

/// A board with no set bit is zero, and a nonzero board has a set bit.
pub proof fn lemma_zero_bits(b: u64)
    ensures
        b == 0 <==> forall|i: u64| i < 64 ==> !bit(b, i),
{
    lemma_bit_basics();
    if forall|i: u64| i < 64 ==> !bit(b, i) {
        assert(forall|i: u64| i < 64 ==> bit(b, i) == bit(0u64, i));
        lemma_bit_ext(b, 0);
    }
}

/// `popcnt_below` only looks at the bits below `n`: boards that agree
/// there count the same.
pub proof fn lemma_popcnt_below_agree(a: u64, m: u64, n: int)
    requires
        n <= 64,
        forall|i: u64| i < n ==> bit(a, i) == bit(m, i),
    ensures
        popcnt_below(a, n) == popcnt_below(m, n),
    decreases n,
{
    if n > 0 {
        lemma_popcnt_below_agree(a, m, n - 1);
    }
}

/// A one-bit board counts exactly one square.
pub proof fn lemma_popcnt_single(k: u64)
    requires
        k < 64,
    ensures
        popcnt(1u64 << k) == 1,
{
    lemma_bit_basics();
    lemma_popcnt_single_below(k, 64);
}

proof fn lemma_popcnt_single_below(k: u64, n: int)
    requires
        k < 64,
        n <= 64,
        forall|i: u64, j: u64| i < 64 && j < 64 ==> #[trigger] bit(1u64 << i, j) == (i == j),
    ensures
        popcnt_below(1u64 << k, n) == if k < n {
            1int
        } else {
            0int
        },
    decreases n,
{
    if n > 0 {
        lemma_popcnt_single_below(k, n - 1);
    }
}

/// A board with no set bit counts zero squares.
pub proof fn lemma_popcnt_zero()
    ensures
        popcnt(0u64) == 0,
{
    lemma_bit_basics();
    lemma_popcnt_zero_below(64);
}

proof fn lemma_popcnt_zero_below(n: int)
    requires
        n <= 64,
        forall|i: u64| i < 64 ==> !#[trigger] bit(0u64, i),
    ensures
        popcnt_below(0u64, n) == 0,
    decreases n,
{
    if n > 0 {
        lemma_popcnt_zero_below(n - 1);
    }
}

proof fn lemma_popcnt_below_props(b: u64, n: int)
    requires
        0 <= n <= 64,
    ensures
        0 <= popcnt_below(b, n) <= n,
        popcnt_below(b, n) == 0 <==> forall|i: u64| i < n ==> !bit(b, i),
    decreases n,
{
    if n > 0 {
        lemma_popcnt_below_props(b, n - 1);
    }
}

/// A board counts zero squares exactly when it is zero, and never a
/// negative number of them.
pub proof fn lemma_popcnt_zero_iff(b: u64)
    ensures
        popcnt(b) == 0 <==> b == 0,
        popcnt(b) >= 0,
{
    lemma_popcnt_below_props(b, 64);
    lemma_zero_bits(b);
}

proof fn lemma_popcnt_pair_below(b: u64, i: u64, j: u64, n: int)
    requires
        i < j < 64,
        bit(b, i),
        bit(b, j),
        n <= 64,
    ensures
        popcnt_below(b, n) >= (if i < n { 1int } else { 0int }) + (if j < n { 1int } else { 0int }),
    decreases n,
{
    if n > 0 {
        lemma_popcnt_pair_below(b, i, j, n - 1);
        lemma_popcnt_below_props(b, if n - 1 >= 0 { n - 1 } else { 0 });
    } else {
        lemma_popcnt_below_props(b, 0);
    }
}

/// A board that counts one square and occupies `k` is the one-bit board
/// of `k`.
pub proof fn lemma_popcnt_one_unique(b: u64, k: u64)
    requires
        k < 64,
        bit(b, k),
        popcnt(b) == 1,
    ensures
        b == 1u64 << k,
{
    lemma_bit_basics();
    assert forall|j: u64| j < 64 implies bit(b, j) == bit(1u64 << k, j) by {
        if j != k && bit(b, j) {
            if j < k {
                lemma_popcnt_pair_below(b, j, k, 64);
            } else {
                lemma_popcnt_pair_below(b, k, j, 64);
            }
        }
    }
    lemma_bit_ext(b, 1u64 << k);
}

/// What `lsb_from` returns: the first set bit at or above `n`, and 64
/// exactly when there is none.
pub proof fn lemma_lsb_from(b: u64, n: u64)
    requires
        n <= 64,
    ensures
        lsb_from(b, n) <= 64,
        lsb_from(b, n) < 64 ==> bit(b, lsb_from(b, n)) && n <= lsb_from(b, n),
        forall|i: u64| n <= i < lsb_from(b, n) ==> !bit(b, i),
        lsb_from(b, n) == 64 ==> forall|i: u64| n <= i < 64 ==> !bit(b, i),
    decreases 64 - n,
{
    if n < 64 && !bit(b, n) {
        lemma_lsb_from(b, (n + 1) as u64);
    }
}

/// The least set bit of a one-bit board is that bit.
pub proof fn lemma_lsb_single(k: u64)
    requires
        k < 64,
    ensures
        lsb(1u64 << k) == k,
{
    lemma_bit_basics();
    lemma_lsb_from(1u64 << k, 0);
    lemma_lsb_from_single(k, 0);
}

proof fn lemma_lsb_from_single(k: u64, n: u64)
    requires
        k < 64,
        n <= k,
        forall|i: u64, j: u64| i < 64 && j < 64 ==> #[trigger] bit(1u64 << i, j) == (i == j),
    ensures
        lsb_from(1u64 << k, n) == k,
    decreases 64 - n,
{
    if n < k {
        lemma_lsb_from_single(k, (n + 1) as u64);
    }
}

} // verus!
