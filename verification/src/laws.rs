//! What holds of the oracles across calls.
use crate::bits::{
    bit_at, bits_value, is_le_bits_of, lemma_bits_value_is_low_bits, lemma_low_bits_bound,
    lemma_low_bits_keeps_bits, lemma_mod_le, low_bits,
};
use crate::circuit::{allocated, signals_error, PoseidonROCircuit, Signal};
use crate::field::{lemma_modulus_bits, FieldElement, FieldId, FIELD_BITS};
use crate::native::PoseidonRO;
use crate::sponge::poseidon_sponge;
use crate::transcript::{challenge, RoError};
use vstd::arithmetic::div_mod::lemma_small_mod;
use vstd::arithmetic::power2::{lemma_pow2_strictly_increases, pow2};
use vstd::prelude::*;

verus! {

/// A squeeze is determined by the field and by the elements absorbed, in
/// their order: two oracles that agree on these and are both squeezed with
/// success give the same challenge.
pub proof fn lemma_squeeze_deterministic(
    a: PoseidonRO,
    b: PoseidonRO,
    num_bits: usize,
    ca: FieldElement,
    cb: FieldElement,
)
    requires
        a.field() == b.field(),
        a.absorbed() == b.absorbed(),
        a.squeeze_returns(num_bits, Ok(ca)),
        b.squeeze_returns(num_bits, Ok(cb)),
    ensures
        ca == cb,
{
    FieldElement::lemma_equal_by_value(ca, cb);
}

/// An oracle is used once: after it has been squeezed, every absorb and
/// every squeeze is refused as a misuse.
pub proof fn lemma_one_shot(ro: PoseidonRO, e: FieldElement, num_bits: usize)
    requires
        ro.is_squeezed(),
    ensures
        ro.absorb_error(e) == Some(RoError::AlreadySqueezed),
        ro.squeeze_error(num_bits) == Some(RoError::AlreadySqueezed),
{
}

/// An oracle inside a circuit is used once: after it has been squeezed,
/// every absorb and every squeeze is refused as a misuse.
pub proof fn lemma_one_shot_circuit<N>(ro: PoseidonROCircuit<N>, num_bits: usize)
    requires
        ro.is_squeezed(),
    ensures
        ro.absorb_error() == Some(RoError::AlreadySqueezed),
        ro.squeeze_error(num_bits) == Some(RoError::AlreadySqueezed),
{
}

/// A challenge of `num_bits` bits is below `2^num_bits`.
pub proof fn lemma_challenge_bound(field: FieldId, absorbed: Seq<nat>, num_bits: nat)
    ensures
        challenge(field, absorbed, num_bits) < pow2(num_bits),
{
    let h = poseidon_sponge(field, absorbed);
    lemma_low_bits_bound(h, num_bits);
    lemma_mod_le(low_bits(h, num_bits), field.spec_partner().modulus());
}

/// A challenge of fewer bits than the partner field's modulus has is not
/// changed by the reduction into that field: it is the sponge's output cut
/// down to its `num_bits` lowest bits.
pub proof fn lemma_challenge_unreduced(field: FieldId, absorbed: Seq<nat>, num_bits: nat)
    requires
        num_bits < FIELD_BITS,
    ensures
        challenge(field, absorbed, num_bits) == low_bits(poseidon_sponge(field, absorbed), num_bits),
{
    let h = poseidon_sponge(field, absorbed);
    let m = field.spec_partner().modulus();
    lemma_low_bits_bound(h, num_bits);
    lemma_modulus_bits(field.spec_partner());
    if num_bits < FIELD_BITS - 1 {
        lemma_pow2_strictly_increases(num_bits, (FIELD_BITS - 1) as nat);
    }
    lemma_small_mod(low_bits(h, num_bits), m);
}

/// The two oracles give the same bits, as far as it is theirs to say. Where
/// the signals of the decomposition stand, under `value`, for the lowest bits
/// of the sponge's output, and fewer bits are asked for than the modulus has,
/// the bits that the oracle inside the circuit hands out stand, one by one,
/// for the bits of the challenge that the oracle outside gives, and add up
/// to it.
pub proof fn lemma_native_circuit_agree<B>(
    field: FieldId,
    absorbed: Seq<nat>,
    signals: Seq<Signal<B>>,
    value: spec_fn(B) -> bool,
    num_bits: usize,
)
    requires
        signals_error(signals, num_bits).is_none(),
        is_le_bits_of(allocated(signals).map_values(value), poseidon_sponge(field, absorbed)),
        num_bits < FIELD_BITS,
    ensures
        is_le_bits_of(
            allocated(signals).take(num_bits as int).map_values(value),
            challenge(field, absorbed, num_bits as nat),
        ),
        bits_value(allocated(signals).take(num_bits as int).map_values(value)) == challenge(
            field,
            absorbed,
            num_bits as nat,
        ),
{
    let h = poseidon_sponge(field, absorbed);
    let c = challenge(field, absorbed, num_bits as nat);
    let all = allocated(signals).map_values(value);
    let kept = allocated(signals).take(num_bits as int).map_values(value);
    lemma_challenge_unreduced(field, absorbed, num_bits as nat);
    assert(is_le_bits_of(kept, c)) by {
        assert forall|i: int| 0 <= i < kept.len() implies #[trigger] kept[i] == bit_at(c, i as nat) by {
            assert(kept[i] == all[i]);
            lemma_low_bits_keeps_bits(h, num_bits as nat, i as nat);
        }
    }
    lemma_bits_value_is_low_bits(kept, c);
    lemma_low_bits_bound(h, num_bits as nat);
    lemma_small_mod(c, pow2(num_bits as nat));
}

} // verus!
