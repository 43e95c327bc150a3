//! Selection of the n-th set bit of a machine word.
//!
//! The masks are read as sets of bit positions, counted from the least
//! significant bit. `count_below` is the rank function of such a set, and the
//! n-th set bit is the one position whose rank is `n`.

use vstd::prelude::*;

verus! {

/// Whether bit `i` of `value` is set.
pub open spec fn bit_is_set(value: u64, i: nat) -> bool {
    i < 64 && (value >> (i as u64)) & 1 == 1
}

/// How many of the bits of `value` at positions below `i` are set.
pub open spec fn count_below(value: u64, i: nat) -> nat
    decreases i,
{
    if i == 0 {
        0
    } else {
        count_below(value, (i - 1) as nat) + if bit_is_set(value, (i - 1) as nat) {
            1nat
        } else {
            0nat
        }
    }
}

/// How many bits of `value` are set.
pub open spec fn count_set(value: u64) -> nat {
    count_below(value, 64)
}

/// `p` is the position of the `n`-th set bit of `value`, counting from zero.
pub open spec fn is_nth_set_bit(value: u64, n: nat, p: nat) -> bool {
    bit_is_set(value, p) && count_below(value, p) == n
}

/// The word whose set bits are exactly the positions below `k`.
pub open spec fn low_mask(k: u64) -> u64 {
    if k >= 64 {
        u64::MAX
    } else {
        !(u64::MAX << k)
    }
}

/// `u64::count_ones` of std: the number of ones in the binary representation,
/// which is the rank of the whole word.
pub assume_specification[ u64::count_ones ](value: u64) -> (r: u32)
    ensures
        r == count_set(value),
;

/// `u32::count_ones` of std: the number of ones in the binary representation.
/// The word is read as the low half of a 64-bit one.
pub assume_specification[ u32::count_ones ](value: u32) -> (r: u32)
    ensures
        r == count_set(value as u64),
;

/// The rank never exceeds the number of positions looked at, and grows with it.
pub proof fn lemma_count_below_bounds(value: u64, i: nat, j: nat)
    requires
        i <= j,
    ensures
        count_below(value, i) <= count_below(value, j),
        count_below(value, j) - count_below(value, i) <= j - i,
    decreases j,
{
    if i < j {
        lemma_count_below_bounds(value, i, (j - 1) as nat);
    }
}

/// A word has at most 64 set bits.
pub proof fn lemma_count_set_bound(value: u64)
    ensures
        count_set(value) <= 64,
{
    lemma_count_below_bounds(value, 0, 64);
}

/// A value has at most one n-th set bit.
pub proof fn lemma_nth_set_bit_unique(value: u64, n: nat, p: nat, q: nat)
    requires
        is_nth_set_bit(value, n, p),
        is_nth_set_bit(value, n, q),
    ensures
        p == q,
{
    if p < q {
        lemma_count_below_bounds(value, p + 1, q);
    }
    if q < p {
        lemma_count_below_bounds(value, q + 1, p);
    }
}

proof fn lemma_masked_bit(value: u64, k: u64, i: u64)
    requires
        k <= 64,
        i < 64,
    ensures
        bit_is_set(value & low_mask(k), i as nat) == (i < k && bit_is_set(value, i as nat)),
{
    let m = low_mask(k);
    assert(((value & m) >> i) & 1 == (if i < k {
        (value >> i) & 1
    } else {
        0
    })) by (bit_vector)
        requires
            k <= 64,
            i < 64,
            m == (if k >= 64 {
                0xffff_ffff_ffff_ffffu64
            } else {
                !(0xffff_ffff_ffff_ffffu64 << k)
            }),
    ;
}

proof fn lemma_masked_count_upto(value: u64, k: u64, j: nat)
    requires
        k <= 64,
        j <= 64,
    ensures
        count_below(value & low_mask(k), j) == count_below(
            value,
            if j <= k {
                j
            } else {
                k as nat
            },
        ),
    decreases j,
{
    if j > 0 {
        lemma_masked_count_upto(value, k, (j - 1) as nat);
        lemma_masked_bit(value, k, (j - 1) as u64);
    }
}

/// Masking a word to its low `k` positions leaves a population equal to the
/// rank of position `k`.
pub proof fn lemma_masked_count(value: u64, k: u64)
    requires
        k <= 64,
    ensures
        count_set(value & low_mask(k)) == count_below(value, k as nat),
{
    lemma_masked_count_upto(value, k, 64);
}

proof fn lemma_mask_grow(k: u64, s: u64)
    requires
        s <= k,
        k + s <= 64,
    ensures
        low_mask(k) | (low_mask(k) << s) == low_mask((k + s) as u64),
{
    let m = low_mask(k);
    let t = (k + s) as u64;
    let w = low_mask(t);
    assert(m | (m << s) == w) by (bit_vector)
        requires
            s <= k,
            k <= 64,
            s <= 64,
            t == k + s,
            t <= 64,
            m == (if k >= 64 {
                0xffff_ffff_ffff_ffffu64
            } else {
                !(0xffff_ffff_ffff_ffffu64 << k)
            }),
            w == (if t >= 64 {
                0xffff_ffff_ffff_ffffu64
            } else {
                !(0xffff_ffff_ffff_ffffu64 << t)
            }),
    ;
}

proof fn lemma_mask_shrink(k: u64, s: u64)
    requires
        s <= k,
        k <= 64,
        s < 64,
    ensures
        low_mask(k) >> s == low_mask((k - s) as u64),
{
    let m = low_mask(k);
    let t = (k - s) as u64;
    let w = low_mask(t);
    assert(m >> s == w) by (bit_vector)
        requires
            s <= k,
            k <= 64,
            s < 64,
            t == k - s,
            m == (if k >= 64 {
                0xffff_ffff_ffff_ffffu64
            } else {
                !(0xffff_ffff_ffff_ffffu64 << k)
            }),
            w == (if t >= 64 {
                0xffff_ffff_ffff_ffffu64
            } else {
                !(0xffff_ffff_ffff_ffffu64 << t)
            }),
    ;
}

/// The width of the window of positions that a halving search still has to
/// look at when its next step is `size`.
pub open spec fn window(size: u32) -> nat {
    if size == 0 {
        1
    } else {
        2 * size as nat
    }
}

/// Position of the `n`-th set bit of `value`, found by halving the window of
/// candidate positions and counting the set bits of its lower half.
///
/// Returns 64 when `value` has no `n`-th set bit.
pub fn nth_bit_set_64_scalar(value: u64, n: u32) -> (r: u32)
    ensures
        n >= count_set(value) ==> r == 64,
        n < count_set(value) ==> r < 64 && is_nth_set_bit(value, n as nat, r as nat),
{
    proof {
        lemma_count_set_bound(value);
    }
    if n >= value.count_ones() {
        return 64;
    }
    let mut mask: u64 = 0x0000_0000_FFFF_FFFF;
    let mut size: u32 = 32;
    let mut base: u32 = 0;
    let wanted: u32 = n + 1;
    assert(mask == low_mask(32)) by (bit_vector)
        requires
            mask == 0x0000_0000_FFFF_FFFFu64,
    ;
    while size > 0
        invariant
            size == 32 || size == 16 || size == 8 || size == 4 || size == 2 || size == 1 || size
                == 0,
            base + window(size) <= 64,
            size > 0 ==> mask == low_mask((base + size) as u64),
            size > 0 ==> size <= base + size,
            wanted == n + 1,
            count_below(value, base as nat) < wanted,
            wanted <= count_below(value, base as nat + window(size)),
        decreases size,
    {
        proof {
            lemma_masked_count(value, (base + size) as u64);
        }
        let count = (value & mask).count_ones();
        let half: u32 = size >> 1;
        assert(half == size / 2) by (bit_vector)
            requires
                half == size >> 1,
        ;
        if wanted > count {
            proof {
                if half > 0 {
                    lemma_mask_grow((base + size) as u64, half as u64);
                }
            }
            base += size;
            size = half;
            mask |= mask << size;
        } else {
            proof {
                if half > 0 {
                    lemma_mask_shrink((base + size) as u64, half as u64);
                }
            }
            size = half;
            mask >>= size;
        }
    }
    base
}

/// Position of the `n`-th set bit of `value`, counting set bits from the least
/// significant one and from zero, or 64 when fewer than `n + 1` bits are set.
pub fn nth_bit_set_64(value: u64, n: u32) -> (r: u32)
    ensures
        n >= count_set(value) ==> r == 64,
        n < count_set(value) ==> r < 64 && is_nth_set_bit(value, n as nat, r as nat),
{
    if n >= value.count_ones() {
        return 64;
    }
    nth_bit_set_64_scalar(value, n)
}

proof fn lemma_half_word(value: u32)
    ensures
        count_set(value as u64) == count_below(value as u64, 32),
{
    let wide = value as u64;
    assert(wide & low_mask(32) == wide) by (bit_vector)
        requires
            wide == value as u64,
    ;
    lemma_masked_count(wide, 32);
}

proof fn lemma_masked_count_32(value: u32, mask: u32, k: u64)
    requires
        k <= 32,
        mask as u64 == low_mask(k),
    ensures
        count_set((value & mask) as u64) == count_below(value as u64, k as nat),
{
    let wide = value as u64;
    let m = mask as u64;
    assert((value & mask) as u64 == wide & m) by (bit_vector)
        requires
            wide == value as u64,
            m == mask as u64,
    ;
    lemma_masked_count(wide, k);
}

proof fn lemma_mask_grow_32(mask: u32, k: u64, s: u32)
    requires
        s <= k,
        k + s <= 32,
        mask as u64 == low_mask(k),
    ensures
        (mask | (mask << s)) as u64 == low_mask((k + s) as u64),
{
    let t = (k + s) as u64;
    let w = low_mask(t);
    let m = low_mask(k);
    assert((mask | (mask << s)) as u64 == w) by (bit_vector)
        requires
            s <= k,
            t == k + s,
            t <= 32,
            mask as u64 == m,
            m == !(0xffff_ffff_ffff_ffffu64 << k),
            w == !(0xffff_ffff_ffff_ffffu64 << t),
    ;
}

proof fn lemma_mask_shrink_32(mask: u32, k: u64, s: u32)
    requires
        s <= k,
        k <= 32,
        mask as u64 == low_mask(k),
    ensures
        (mask >> s) as u64 == low_mask((k - s) as u64),
{
    let t = (k - s) as u64;
    let w = low_mask(t);
    let m = low_mask(k);
    assert((mask >> s) as u64 == w) by (bit_vector)
        requires
            s <= k,
            k <= 32,
            t == k - s,
            mask as u64 == m,
            m == !(0xffff_ffff_ffff_ffffu64 << k),
            w == !(0xffff_ffff_ffff_ffffu64 << t),
    ;
}

/// Position of the `n`-th set bit of a 32-bit `value`, found by halving the
/// window of candidate positions and counting the set bits of its lower half.
///
/// Returns 32 when `value` has no `n`-th set bit.
pub fn nth_bit_set_32_scalar(value: u32, n: u32) -> (r: u32)
    ensures
        n >= count_set(value as u64) ==> r == 32,
        n < count_set(value as u64) ==> r < 32 && is_nth_set_bit(
            value as u64,
            n as nat,
            r as nat,
        ),
{
    proof {
        lemma_count_set_bound(value as u64);
        lemma_half_word(value);
    }
    if n >= value.count_ones() {
        return 32;
    }
    let mut mask: u32 = 0x0000_FFFF;
    let mut size: u32 = 16;
    let mut base: u32 = 0;
    let wanted: u32 = n + 1;
    assert(mask as u64 == low_mask(16)) by (bit_vector)
        requires
            mask == 0x0000_FFFFu32,
    ;
    while size > 0
        invariant
            size == 16 || size == 8 || size == 4 || size == 2 || size == 1 || size == 0,
            base + window(size) <= 32,
            size > 0 ==> mask as u64 == low_mask((base + size) as u64),
            wanted == n + 1,
            count_below(value as u64, base as nat) < wanted,
            wanted <= count_below(value as u64, base as nat + window(size)),
        decreases size,
    {
        proof {
            lemma_masked_count_32(value, mask, (base + size) as u64);
        }
        let count = (value & mask).count_ones();
        let half: u32 = size >> 1;
        assert(half == size / 2) by (bit_vector)
            requires
                half == size >> 1,
        ;
        if wanted > count {
            proof {
                if half > 0 {
                    lemma_mask_grow_32(mask, (base + size) as u64, half);
                }
            }
            base += size;
            size = half;
            mask |= mask << size;
        } else {
            proof {
                if half > 0 {
                    lemma_mask_shrink_32(mask, (base + size) as u64, half);
                }
            }
            size = half;
            mask >>= size;
        }
    }
    base
}

/// Position of the `n`-th set bit of a 32-bit `value`, counting set bits from
/// the least significant one and from zero, or 32 when fewer than `n + 1` bits
/// are set.
pub fn nth_bit_set_32(value: u32, n: u32) -> (r: u32)
    ensures
        n >= count_set(value as u64) ==> r == 32,
        n < count_set(value as u64) ==> r < 32 && is_nth_set_bit(
            value as u64,
            n as nat,
            r as nat,
        ),
{
    if n >= value.count_ones() {
        return 32;
    }
    nth_bit_set_32_scalar(value, n)
}

} // verus!
