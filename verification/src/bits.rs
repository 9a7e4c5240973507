//! Little-endian bits of an integer and what a run of them is worth.
use vstd::arithmetic::div_mod::{
    lemma_add_mod_noop, lemma_fundamental_div_mod, lemma_fundamental_div_mod_converse,
    lemma_hoist_over_denominator, lemma_mod_bound, lemma_mod_multiples_vanish, lemma_small_mod,
};
use vstd::arithmetic::mul::lemma_mul_is_distributive_add;
use vstd::arithmetic::power2::{
    lemma2_to64, lemma_pow2_adds, lemma_pow2_pos, lemma_pow2_unfold, pow2,
};
use vstd::prelude::*;

verus! {

/// Bit `i` of `v`, counted from the least significant.
pub open spec fn bit_at(v: nat, i: nat) -> bool {
    (v / pow2(i)) % 2 == 1
}

/// What is left of `v` when only its `k` lowest bits are kept.
pub open spec fn low_bits(v: nat, k: nat) -> nat {
    v % pow2(k)
}

/// The weight of bit `i` where it is set, and nothing where it is not.
pub open spec fn bit_weight(bit: bool, i: nat) -> nat {
    if bit {
        pow2(i)
    } else {
        0
    }
}

/// The integer that a little-endian run of bits stands for: the sum of the
/// weights `2^i` of the bits that are set.
pub open spec fn bits_value(bits: Seq<bool>) -> nat
    decreases bits.len(),
{
    if bits.len() == 0 {
        0
    } else {
        bits_value(bits.drop_last()) + bit_weight(bits.last(), (bits.len() - 1) as nat)
    }
}

/// Whether `bits` are the lowest bits of `v`, least significant first.
pub open spec fn is_le_bits_of(bits: Seq<bool>, v: nat) -> bool {
    forall|i: int| 0 <= i < bits.len() ==> #[trigger] bits[i] == bit_at(v, i as nat)
}

/// Keeping one more bit adds that bit's weight.
pub proof fn lemma_low_bits_step(v: nat, k: nat)
    ensures
        low_bits(v, k + 1) == low_bits(v, k) + bit_weight(bit_at(v, k), k),
        low_bits(v, k) < pow2(k),
{
    let p = pow2(k) as int;
    lemma_pow2_pos(k);
    lemma_pow2_unfold(k + 1);
    assert(pow2(k + 1) == 2 * p);
    let q = (v as int) / p;
    let r = (v as int) % p;
    lemma_fundamental_div_mod(v as int, p);
    lemma_mod_bound(v as int, p);
    let q2 = q / 2;
    let b = q % 2;
    lemma_fundamental_div_mod(q, 2);
    assert(v == p * (2 * q2 + b) + r);
    lemma_mul_is_distributive_add(p, 2 * q2, b);
    assert(p * (2 * q2) == (2 * p) * q2) by (nonlinear_arith);
    assert(p * b == if b == 1 { p } else { 0 }) by (nonlinear_arith)
        requires
            b == 0 || b == 1,
    ;
    let low = p * b + r;
    assert(0 <= low < 2 * p);
    assert(v == (2 * p) * q2 + low);
    assert((2 * p) * q2 == q2 * (2 * p)) by (nonlinear_arith);
    lemma_fundamental_div_mod_converse(v as int, 2 * p, q2, low);
}

/// Keeping no bit leaves nothing.
pub proof fn lemma_low_bits_zero(v: nat)
    ensures
        low_bits(v, 0) == 0,
{
    lemma2_to64();
}

/// The value of the `k` lowest bits of `v`, read as a run of bits, is `v`
/// with only its `k` lowest bits kept.
pub proof fn lemma_bits_value_is_low_bits(bits: Seq<bool>, v: nat)
    requires
        is_le_bits_of(bits, v),
    ensures
        bits_value(bits) == low_bits(v, bits.len()),
    decreases bits.len(),
{
    if bits.len() == 0 {
        lemma_low_bits_zero(v);
    } else {
        let k = (bits.len() - 1) as nat;
        assert(is_le_bits_of(bits.drop_last(), v)) by {
            assert forall|i: int| 0 <= i < bits.drop_last().len() implies #[trigger] bits.drop_last()[i]
                == bit_at(v, i as nat) by {
                assert(bits.drop_last()[i] == bits[i]);
            }
        }
        lemma_bits_value_is_low_bits(bits.drop_last(), v);
        lemma_low_bits_step(v, k);
        assert(bits.last() == bits[k as int]);
    }
}

/// Cutting an integer down to its `k` lowest bits leaves each of these bits
/// as it was.
pub proof fn lemma_low_bits_keeps_bits(v: nat, k: nat, i: nat)
    requires
        i < k,
    ensures
        bit_at(low_bits(v, k), i) == bit_at(v, i),
{
    let p = pow2(i) as int;
    let m = pow2((k - i) as nat) as int;
    let half = pow2((k - i - 1) as nat) as int;
    lemma_pow2_pos(i);
    lemma_pow2_pos(k);
    lemma_pow2_adds(i, (k - i) as nat);
    lemma_pow2_unfold((k - i) as nat);
    assert(pow2(k) == p * m);
    assert(m == 2 * half);
    let a = (v as int) / (p * m);
    let r = (v as int) % (p * m);
    lemma_fundamental_div_mod(v as int, p * m);
    assert(v == (a * m) * p + r) by (nonlinear_arith)
        requires
            v == (p * m) * a + r,
    ;
    lemma_hoist_over_denominator(r, a * m, p as nat);
    assert((v as int) / p == r / p + a * m);
    assert(a * m == 2 * (a * half)) by (nonlinear_arith)
        requires
            m == 2 * half,
    ;
    lemma_mod_multiples_vanish(a * half, r / p, 2);
}

/// A run of `k` bits is worth less than `2^k`.
pub proof fn lemma_low_bits_bound(v: nat, k: nat)
    ensures
        low_bits(v, k) < pow2(k),
{
    lemma_pow2_pos(k);
    lemma_mod_bound(v as int, pow2(k) as int);
}

/// Reducing by a modulus never makes an integer larger.
pub proof fn lemma_mod_le(x: nat, m: nat)
    requires
        m > 0,
    ensures
        x % m <= x,
{
    if x < m {
        lemma_small_mod(x, m);
    } else {
        lemma_mod_bound(x as int, m as int);
    }
}

/// Adding two reduced integers and reducing again is reducing the sum.
pub proof fn lemma_add_reduced(a: nat, b: nat, m: nat)
    requires
        m > 0,
    ensures
        ((a % m) + (b % m)) % m == (a + b) % m,
{
    lemma_add_mod_noop(a as int, b as int, m as int);
}

} // verus!
