//! The Poseidon sponge and the field arithmetic that the oracle takes from
//! outside: `neptune` permutes, `halo2curves` adds and decomposes.
//!
//! Everything here is believed, not proved: each item says which outside
//! function it stands on and what it claims of it.
use crate::bits::bit_at;
use crate::field::{FieldElement, FieldId};
use ff::PrimeFieldBits;
use generic_array::typenum::U24;
use halo2curves::bn256::{Fq, Fr};
use neptune::poseidon::PoseidonConstants;
use neptune::sponge::api::{IOPattern, SpongeAPI, SpongeOp};
use neptune::sponge::vanilla::{Mode, Sponge, SpongeTrait};
use neptune::Strength;
use vstd::prelude::*;

verus! {

/// The Poseidon constants of rate 24 over the scalar field of BN256, as
/// `neptune` holds them. Opaque here: the table is only handed back to
/// `neptune`. It can be read from outside, for a sponge inside a circuit, but
/// only this module makes one.
#[verifier::external_body]
#[derive(Debug)]
pub struct ScalarTable {
    pub inner: PoseidonConstants<Fr, U24>,
    _sealed: (),
}

/// The Poseidon constants of rate 24 over the base field of BN256, as
/// `neptune` holds them. Opaque here: the table is only handed back to
/// `neptune`. It can be read from outside, for a sponge inside a circuit, but
/// only this module makes one.
#[verifier::external_body]
#[derive(Debug)]
pub struct BaseTable {
    pub inner: PoseidonConstants<Fq, U24>,
    _sealed: (),
}

impl Clone for ScalarTable {
    /// The derived `clone` of `neptune`'s `PoseidonConstants`: a copy equal
    /// to the table.
    #[verifier::external_body]
    fn clone(&self) -> (r: Self)
        ensures
            r == *self,
    {
        ScalarTable { inner: self.inner.clone(), _sealed: () }
    }
}

impl Clone for BaseTable {
    /// The derived `clone` of `neptune`'s `PoseidonConstants`: a copy equal
    /// to the table.
    #[verifier::external_body]
    fn clone(&self) -> (r: Self)
        ensures
            r == *self,
    {
        BaseTable { inner: self.inner.clone(), _sealed: () }
    }
}

/// What the sponge squeezes first after it has absorbed `inputs`, in `field`,
/// under the constants of standard strength and rate 24, with the pattern of
/// one absorb phase of `inputs.len()` elements and one squeeze phase of one
/// element.
pub uninterp spec fn poseidon_sponge(field: FieldId, inputs: Seq<nat>) -> nat;

/// The integers of a sequence of elements, in order.
pub open spec fn values(elements: Seq<FieldElement>) -> Seq<nat> {
    elements.map_values(|e: FieldElement| e@)
}

/// Whether every element of the sequence is well formed and of `field`.
pub open spec fn all_in_field(elements: Seq<FieldElement>, field: FieldId) -> bool {
    forall|i: int|
        0 <= i < elements.len() ==> (#[trigger] elements[i]).wf() && elements[i].spec_field()
            == field
}

/// `Sponge::api_constants` of `neptune`, at `Strength::Standard`, over the
/// scalar field. Nothing is claimed of the table.
#[verifier::external_body]
pub(crate) fn derive_scalar_table() -> ScalarTable {
    ScalarTable { inner: Sponge::<Fr, U24>::api_constants(Strength::Standard), _sealed: () }
}

/// `Sponge::api_constants` of `neptune`, at `Strength::Standard`, over the
/// base field. Nothing is claimed of the table.
#[verifier::external_body]
pub(crate) fn derive_base_table() -> BaseTable {
    BaseTable { inner: Sponge::<Fq, U24>::api_constants(Strength::Standard), _sealed: () }
}

/// One session of `neptune`'s `Sponge` over the scalar field, in simplex
/// mode: `start` with the pattern of one absorb of `absorb_len` and one
/// squeeze of `squeeze_len`, `absorb` of all `inputs`, `squeeze`, `finish`.
/// The claim: the element squeezed depends on the inputs alone, and is
/// canonical.
#[verifier::external_body]
pub(crate) fn scalar_sponge(
    table: &ScalarTable,
    absorb_len: u32,
    squeeze_len: u32,
    inputs: &Vec<FieldElement>,
) -> (r: FieldElement)
    requires
        absorb_len == inputs@.len(),
        absorb_len < 0x8000_0000,
        squeeze_len == 1,
        all_in_field(inputs@, FieldId::Bn256Scalar),
    ensures
        r.wf(),
        r.spec_field() == FieldId::Bn256Scalar,
        r@ == poseidon_sponge(FieldId::Bn256Scalar, values(inputs@)),
{
    let elements: Vec<Fr> = inputs.iter().map(|e| Fr::from_raw(e.limbs)).collect();
    let mut sponge = Sponge::new_with_constants(&table.inner, Mode::Simplex);
    let pattern = IOPattern(vec![SpongeOp::Absorb(absorb_len), SpongeOp::Squeeze(squeeze_len)]);
    sponge.start(pattern, None, &mut ());
    SpongeAPI::absorb(&mut sponge, absorb_len, &elements, &mut ());
    let out = SpongeAPI::squeeze(&mut sponge, squeeze_len, &mut ());
    sponge.finish(&mut ()).unwrap();
    FieldElement { field: FieldId::Bn256Scalar, limbs: out[0].into() }
}

/// One session of `neptune`'s `Sponge` over the base field, in simplex mode:
/// `start` with the pattern of one absorb of `absorb_len` and one squeeze of
/// `squeeze_len`, `absorb` of all `inputs`, `squeeze`, `finish`. The claim:
/// the element squeezed depends on the inputs alone, and is canonical.
#[verifier::external_body]
pub(crate) fn base_sponge(
    table: &BaseTable,
    absorb_len: u32,
    squeeze_len: u32,
    inputs: &Vec<FieldElement>,
) -> (r: FieldElement)
    requires
        absorb_len == inputs@.len(),
        absorb_len < 0x8000_0000,
        squeeze_len == 1,
        all_in_field(inputs@, FieldId::Bn256Base),
    ensures
        r.wf(),
        r.spec_field() == FieldId::Bn256Base,
        r@ == poseidon_sponge(FieldId::Bn256Base, values(inputs@)),
{
    let elements: Vec<Fq> = inputs.iter().map(|e| Fq::from_raw(e.limbs)).collect();
    let mut sponge = Sponge::new_with_constants(&table.inner, Mode::Simplex);
    let pattern = IOPattern(vec![SpongeOp::Absorb(absorb_len), SpongeOp::Squeeze(squeeze_len)]);
    sponge.start(pattern, None, &mut ());
    SpongeAPI::absorb(&mut sponge, absorb_len, &elements, &mut ());
    let out = SpongeAPI::squeeze(&mut sponge, squeeze_len, &mut ());
    sponge.finish(&mut ()).unwrap();
    FieldElement { field: FieldId::Bn256Base, limbs: out[0].into() }
}

/// `PrimeFieldBits::to_le_bits` on an element of the scalar field: the 256
/// bits of its canonical integer, least significant first.
#[verifier::external_body]
pub(crate) fn scalar_le_bits(e: &FieldElement) -> (r: Vec<bool>)
    requires
        e.wf(),
        e.spec_field() == FieldId::Bn256Scalar,
    ensures
        r@.len() == 256,
        forall|i: int| 0 <= i < 256 ==> #[trigger] r@[i] == bit_at(e@, i as nat),
{
    Fr::from_raw(e.limbs).to_le_bits().into_iter().collect()
}

/// `PrimeFieldBits::to_le_bits` on an element of the base field: the 256 bits
/// of its canonical integer, least significant first.
#[verifier::external_body]
pub(crate) fn base_le_bits(e: &FieldElement) -> (r: Vec<bool>)
    requires
        e.wf(),
        e.spec_field() == FieldId::Bn256Base,
    ensures
        r@.len() == 256,
        forall|i: int| 0 <= i < 256 ==> #[trigger] r@[i] == bit_at(e@, i as nat),
{
    Fq::from_raw(e.limbs).to_le_bits().into_iter().collect()
}

/// The `+` of the scalar field: the sum of the two integers, reduced by the
/// modulus.
#[verifier::external_body]
pub(crate) fn scalar_add(a: &FieldElement, b: &FieldElement) -> (r: FieldElement)
    requires
        a.wf(),
        b.wf(),
        a.spec_field() == FieldId::Bn256Scalar,
        b.spec_field() == FieldId::Bn256Scalar,
    ensures
        r.wf(),
        r.spec_field() == FieldId::Bn256Scalar,
        r@ == (a@ + b@) % FieldId::Bn256Scalar.modulus(),
{
    let sum = Fr::from_raw(a.limbs) + Fr::from_raw(b.limbs);
    FieldElement { field: FieldId::Bn256Scalar, limbs: sum.into() }
}

/// The `+` of the base field: the sum of the two integers, reduced by the
/// modulus.
#[verifier::external_body]
pub(crate) fn base_add(a: &FieldElement, b: &FieldElement) -> (r: FieldElement)
    requires
        a.wf(),
        b.wf(),
        a.spec_field() == FieldId::Bn256Base,
        b.spec_field() == FieldId::Bn256Base,
    ensures
        r.wf(),
        r.spec_field() == FieldId::Bn256Base,
        r@ == (a@ + b@) % FieldId::Bn256Base.modulus(),
{
    let sum = Fq::from_raw(a.limbs) + Fq::from_raw(b.limbs);
    FieldElement { field: FieldId::Bn256Base, limbs: sum.into() }
}

} // verus!
