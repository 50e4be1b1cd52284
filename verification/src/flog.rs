//! The fixed-point logarithmic compression of the raw variance: an
//! integer log-scale encoding that packs the bit length of the value in
//! the upper byte and the next eight significant bits as a fractional
//! mantissa. It is a monotonic, overflow-safe, one-word approximation of
//! the base-two logarithm with about 1/256 resolution — a bit-exact
//! encoding, not a true logarithm.

use vstd::prelude::*;
use vstd::arithmetic::power2::{
    lemma2_to64, lemma_pow2_adds, lemma_pow2_pos, lemma_pow2_unfold, pow2,
};
use crate::state::FINE_LOG_MAX;

verus! {

/// Bit length of a value: the position of its highest set bit, one-based;
/// zero for zero.
pub open spec fn bit_len(v: nat) -> nat
    decreases v,
{
    if v == 0 {
        0
    } else {
        1 + bit_len(v / 2)
    }
}

/// `v` shifted right by `k` bits, written as `k` halvings.
pub open spec fn shr_halves(v: nat, k: nat) -> nat
    decreases k,
{
    if k == 0 {
        v
    } else {
        shr_halves(v / 2, (k - 1) as nat)
    }
}

/// The packed fixed-point log of a raw variance value: the bit length in
/// the upper byte and, when the value is longer than eight bits, the next
/// eight significant bits as a mantissa.
pub open spec fn fine_log_of(m_v: u128) -> u64 {
    let msb = bit_len(m_v as nat);
    if msb > 8 {
        (msb * 256 + shr_halves(m_v as nat, (msb - 8) as nat) % 256) as u64
    } else {
        (msb * 256) as u64
    }
}

/// A positive value lies between the powers of two that its bit length
/// names.
pub proof fn lemma_bit_len_bounds(v: nat)
    ensures
        v < pow2(bit_len(v)),
        v > 0 ==> pow2((bit_len(v) - 1) as nat) <= v,
    decreases v,
{
    if v == 0 {
        lemma_pow2_pos(0);
        assert(pow2(0) == 1) by {
            lemma2_to64();
        }
    } else {
        let b = bit_len(v / 2);
        lemma_bit_len_bounds(v / 2);
        lemma_pow2_unfold((b + 1) as nat);
        assert(pow2(b + 1) == 2 * pow2(b));
        assert(v <= 2 * (v / 2) + 1);
        assert(v < 2 * pow2(b) + 1);
        assert(v < pow2(b + 1));
        if v / 2 == 0 {
            assert(v == 1);
            assert(bit_len(v) == 1);
            lemma2_to64();
            assert(pow2(0) == 1);
        } else {
            assert(pow2((b - 1) as nat) <= v / 2);
            lemma_pow2_unfold(b);
            assert(pow2(b) == 2 * pow2((b - 1) as nat));
            assert(2 * (v / 2) <= v);
            assert(pow2(b) <= v);
        }
    }
}

/// Bit length is monotone.
pub proof fn lemma_bit_len_mono(a: nat, b: nat)
    requires
        a <= b,
    ensures
        bit_len(a) <= bit_len(b),
    decreases b,
{
    if a > 0 {
        lemma_bit_len_mono(a / 2, b / 2);
    }
}

/// A value below `pow2(n)` is at most `n` bits long.
pub proof fn lemma_bit_len_le(v: nat, n: nat)
    requires
        v < pow2(n),
    ensures
        bit_len(v) <= n,
{
    if bit_len(v) > n {
        lemma_bit_len_bounds(v);
        assert(v > 0) by {
            if v == 0 {
                assert(bit_len(v) == 0);
            }
        }
        assert(pow2((bit_len(v) - 1) as nat) <= v);
        vstd::arithmetic::power2::lemma_pow2_strictly_increases(
            n,
            (bit_len(v) - 1) as nat,
        );
    }
}

/// Halving preserves order, so shifting does.
pub proof fn lemma_shr_halves_mono(a: nat, b: nat, k: nat)
    requires
        a <= b,
    ensures
        shr_halves(a, k) <= shr_halves(b, k),
    decreases k,
{
    if k > 0 {
        lemma_shr_halves_mono(a / 2, b / 2, (k - 1) as nat);
    }
}

/// Shifting right by `k` removes exactly `k` bits of length.
pub proof fn lemma_shr_halves_bit_len(v: nat, k: nat)
    ensures
        bit_len(shr_halves(v, k)) == if bit_len(v) >= k {
            (bit_len(v) - k) as nat
        } else {
            0
        },
    decreases k,
{
    if k > 0 {
        if v == 0 {
            lemma_shr_halves_zero(k);
        } else {
            lemma_shr_halves_bit_len(v / 2, (k - 1) as nat);
        }
    }
}

/// Shifting zero yields zero.
pub proof fn lemma_shr_halves_zero(k: nat)
    ensures
        shr_halves(0, k) == 0,
    decreases k,
{
    if k > 0 {
        lemma_shr_halves_zero((k - 1) as nat);
    }
}

/// No 128-bit value is longer than 128 bits.
pub proof fn lemma_bit_len_u128(v: u128)
    ensures
        bit_len(v as nat) <= 128,
{
    lemma_pow2_adds(64, 64);
    lemma2_to64();
    assert(pow2(128) == pow2(64) * pow2(64));
    assert((v as nat) < pow2(128));
    lemma_bit_len_le(v as nat, 128);
}

/// The packed log never exceeds `FINE_LOG_MAX`.
pub proof fn lemma_fine_log_le_max(m_v: u128)
    ensures
        fine_log_of(m_v) <= FINE_LOG_MAX,
{
    lemma_bit_len_u128(m_v);
    let msb = bit_len(m_v as nat);
    if msb > 8 {
        let r = shr_halves(m_v as nat, (msb - 8) as nat) % 256;
        assert(r < 256);
        assert(msb * 256 + r <= 128 * 256 + 255);
    }
}

/// The fixed-log transform is monotonically non-decreasing: a larger raw
/// variance never packs to a smaller fine log.
pub proof fn lemma_fine_log_monotonic(a: u128, b: u128)
    requires
        a <= b,
    ensures
        fine_log_of(a) <= fine_log_of(b),
{
    let la = bit_len(a as nat);
    let lb = bit_len(b as nat);
    lemma_bit_len_u128(a);
    lemma_bit_len_u128(b);
    lemma_bit_len_mono(a as nat, b as nat);
    assert(la * 256 + 255 <= 33023);
    assert(lb * 256 + 255 <= 33023);
    if la == lb {
        if la > 8 {
            let k = (la - 8) as nat;
            lemma_shr_halves_mono(a as nat, b as nat, k);
            let sa = shr_halves(a as nat, k);
            let sb = shr_halves(b as nat, k);
            lemma_shr_halves_bit_len(a as nat, k);
            lemma_shr_halves_bit_len(b as nat, k);
            assert(bit_len(sa) == 8);
            assert(bit_len(sb) == 8);
            lemma_bit_len_bounds(sa);
            lemma_bit_len_bounds(sb);
            assert(pow2(8) == 256) by {
                lemma2_to64();
            }
            assert(sa < 256);
            assert(sb < 256);
            assert(sa % 256 == sa);
            assert(sb % 256 == sb);
        }
    } else {
        assert(la < lb);
        if la > 8 {
            let r = shr_halves(a as nat, (la - 8) as nat) % 256;
            assert(r < 256);
            assert(fine_log_of(a) == la * 256 + r);
            assert(la * 256 + r < (la + 1) * 256);
            assert((la + 1) * 256 <= lb * 256);
            assert(fine_log_of(b) >= lb * 256);
        } else {
            assert(fine_log_of(a) == la * 256);
            assert(fine_log_of(b) >= lb * 256);
        }
    }
}

/// Bit length of a 128-bit value, computed by repeated halving.
fn bit_length(v: u128) -> (r: u32)
    ensures
        r == bit_len(v as nat),
        r <= 128,
{
    proof {
        lemma_bit_len_u128(v);
    }
    let mut x: u128 = v;
    let mut r: u32 = 0;
    while x > 0
        invariant
            r + bit_len(x as nat) == bit_len(v as nat),
            bit_len(v as nat) <= 128,
        decreases x,
    {
        x = x / 2;
        r = r + 1;
    }
    r
}

/// `v >> k`, computed by `k` halvings.
fn shift_down(v: u128, k: u32) -> (r: u128)
    ensures
        r == shr_halves(v as nat, k as nat),
{
    let mut x: u128 = v;
    let mut i: u32 = 0;
    while i < k
        invariant
            i <= k,
            shr_halves(v as nat, k as nat) == shr_halves(x as nat, (k - i) as nat),
        decreases k - i,
    {
        x = x / 2;
        i = i + 1;
    }
    x
}

/// Packs a raw variance value into its fixed-point log form: bit length in
/// the upper byte, the next eight significant bits as the mantissa when
/// the value is longer than eight bits.
pub fn fine_log(m_v: u128) -> (f: u64)
    ensures
        f == fine_log_of(m_v),
        f <= FINE_LOG_MAX,
{
    proof {
        lemma_fine_log_le_max(m_v);
    }
    let msb = bit_length(m_v);
    if msb > 8 {
        let shifted = shift_down(m_v, msb - 8);
        proof {
            lemma_shr_halves_bit_len(m_v as nat, (msb - 8) as nat);
            lemma_bit_len_bounds(shifted as nat);
            assert(pow2(8) == 256) by {
                lemma2_to64();
            }
            assert(shifted < 256);
            assert((shifted as nat) % 256 == shifted as nat);
        }
        (msb as u64) * 256 + (shifted as u64)
    } else {
        (msb as u64) * 256
    }
}

} // verus!
