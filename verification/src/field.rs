//! The two prime fields of the cycle and their elements as plain integers.
use crate::bits::bit_at;
use crate::sponge::{base_add, base_le_bits, scalar_add, scalar_le_bits};
use vstd::arithmetic::power2::{lemma2_to64, lemma2_to64_rest, lemma_pow2_adds, pow2};
use vstd::prelude::*;

verus! {

/// The weight of one 64-bit limb: `2^64`.
pub open spec fn limb_base() -> nat {
    0x1_0000_0000_0000_0000
}

/// The integer that four little-endian 64-bit limbs stand for.
pub open spec fn limbs_value(l0: u64, l1: u64, l2: u64, l3: u64) -> nat {
    (l0 + limb_base() * (l1 + limb_base() * (l2 + limb_base() * l3))) as nat
}

/// One of the two prime fields of the BN256 / Grumpkin cycle.
///
/// The scalar field of BN256 is the base field of Grumpkin, and the other way
/// round, so each field is the partner of the other.
#[derive(Clone, Copy, Debug, PartialEq, Eq, Structural)]
pub enum FieldId {
    /// The scalar field of BN256 (the base field of Grumpkin).
    Bn256Scalar,
    /// The base field of BN256 (the scalar field of Grumpkin).
    Bn256Base,
}

impl FieldId {
    /// The prime modulus of the field:
    /// `0x30644e72e131a029b85045b68181585d2833e84879b9709143e1f593f0000001`
    /// for the scalar field,
    /// `0x30644e72e131a029b85045b68181585d97816a916871ca8d3c208c16d87cfd47`
    /// for the base field.
    pub open spec fn modulus(self) -> nat {
        match self {
            FieldId::Bn256Scalar => limbs_value(
                0x43e1f593f0000001,
                0x2833e84879b97091,
                0xb85045b68181585d,
                0x30644e72e131a029,
            ),
            FieldId::Bn256Base => limbs_value(
                0x3c208c16d87cfd47,
                0x97816a916871ca8d,
                0xb85045b68181585d,
                0x30644e72e131a029,
            ),
        }
    }

    /// The other field of the cycle.
    pub open spec fn spec_partner(self) -> FieldId {
        match self {
            FieldId::Bn256Scalar => FieldId::Bn256Base,
            FieldId::Bn256Base => FieldId::Bn256Scalar,
        }
    }

    /// The other field of the cycle.
    pub fn partner(self) -> (r: FieldId)
        ensures
            r == self.spec_partner(),
    {
        match self {
            FieldId::Bn256Scalar => FieldId::Bn256Base,
            FieldId::Bn256Base => FieldId::Bn256Scalar,
        }
    }

    /// The limbs of the modulus, least significant first.
    pub fn modulus_limbs(self) -> (r: [u64; 4])
        ensures
            limbs_value(r[0], r[1], r[2], r[3]) == self.modulus(),
    {
        match self {
            FieldId::Bn256Scalar => [
                0x43e1f593f0000001,
                0x2833e84879b97091,
                0xb85045b68181585d,
                0x30644e72e131a029,
            ],
            FieldId::Bn256Base => [
                0x3c208c16d87cfd47,
                0x97816a916871ca8d,
                0xb85045b68181585d,
                0x30644e72e131a029,
            ],
        }
    }
}

/// The number of bits of the modulus of either field.
pub const FIELD_BITS: usize = 254;

/// The modulus of either field has exactly `FIELD_BITS` bits.
pub proof fn lemma_modulus_bits(field: FieldId)
    ensures
        pow2((FIELD_BITS - 1) as nat) <= field.modulus() < pow2(FIELD_BITS as nat),
{
    lemma2_to64();
    lemma2_to64_rest();
    lemma_pow2_adds(64, 64);
    lemma_pow2_adds(128, 64);
    lemma_pow2_adds(192, 61);
    lemma_pow2_adds(192, 62);
    let b = limb_base() as int;
    assert(pow2(64) == b);
    assert(pow2(192) == b * b * b) by (nonlinear_arith)
        requires
            pow2(128) == pow2(64) * pow2(64),
            pow2(192) == pow2(128) * pow2(64),
            pow2(64) == b,
    ;
}

/// A canonical element of one of the two fields: an integer below the
/// field's modulus, held as four little-endian 64-bit limbs.
#[derive(Clone, Copy, Debug, PartialEq, Eq)]
pub struct FieldElement {
    pub(crate) field: FieldId,
    pub(crate) limbs: [u64; 4],
}

impl View for FieldElement {
    type V = nat;

    closed spec fn view(&self) -> nat {
        limbs_value(self.limbs[0], self.limbs[1], self.limbs[2], self.limbs[3])
    }
}

impl FieldElement {
    /// The field that the element belongs to.
    pub closed spec fn spec_field(&self) -> FieldId {
        self.field
    }

    /// The limbs of the element, least significant first.
    pub closed spec fn spec_limbs(&self) -> Seq<u64> {
        self.limbs@
    }

    /// An element is well formed when its integer is below the modulus.
    #[verifier::type_invariant]
    pub closed spec fn wf(&self) -> bool {
        self@ < self.field.modulus()
    }

    /// Two elements of one field that stand for the same integer are the same
    /// element.
    pub proof fn lemma_equal_by_value(a: FieldElement, b: FieldElement)
        requires
            a.spec_field() == b.spec_field(),
            a@ == b@,
        ensures
            a == b,
    {
        assert(a.limbs@ =~= b.limbs@);
        assert(a.limbs == b.limbs);
    }

    /// The element of `field` with the given limbs, if they are canonical,
    /// that is if the integer they stand for is below the modulus.
    pub fn from_limbs(field: FieldId, limbs: [u64; 4]) -> (r: Option<FieldElement>)
        ensures
            r.is_some() <==> limbs_value(limbs[0], limbs[1], limbs[2], limbs[3]) < field.modulus(),
            r matches Some(e) ==> e.wf() && e.spec_field() == field && e.spec_limbs() == limbs@
                && e@ == limbs_value(limbs[0], limbs[1], limbs[2], limbs[3]),
    {
        let m = field.modulus_limbs();
        let below = if limbs[3] != m[3] {
            limbs[3] < m[3]
        } else if limbs[2] != m[2] {
            limbs[2] < m[2]
        } else if limbs[1] != m[1] {
            limbs[1] < m[1]
        } else {
            limbs[0] < m[0]
        };
        if below {
            Some(FieldElement { field, limbs })
        } else {
            None
        }
    }

    /// The field that the element belongs to.
    pub fn field(&self) -> (r: FieldId)
        ensures
            r == self.spec_field(),
    {
        self.field
    }

    /// The limbs of the element, least significant first.
    pub fn limbs(&self) -> (r: [u64; 4])
        ensures
            r@ == self.spec_limbs(),
            limbs_value(r[0], r[1], r[2], r[3]) == self@,
    {
        self.limbs
    }

    /// The 256 bits of the element's integer, least significant first.
    pub fn to_le_bits(&self) -> (r: Vec<bool>)
        ensures
            r@.len() == 256,
            forall|i: int| 0 <= i < 256 ==> #[trigger] r@[i] == bit_at(self@, i as nat),
    {
        proof {
            use_type_invariant(self);
        }
        match self.field {
            FieldId::Bn256Scalar => scalar_le_bits(self),
            FieldId::Bn256Base => base_le_bits(self),
        }
    }

    /// The sum of two elements of one field.
    pub(crate) fn add(&self, rhs: &FieldElement) -> (r: FieldElement)
        requires
            self.spec_field() == rhs.spec_field(),
        ensures
            r.spec_field() == self.spec_field(),
            r@ == (self@ + rhs@) % self.spec_field().modulus(),
    {
        proof {
            use_type_invariant(self);
            use_type_invariant(rhs);
        }
        match self.field {
            FieldId::Bn256Scalar => scalar_add(self, rhs),
            FieldId::Bn256Base => base_add(self, rhs),
        }
    }

    /// The zero of `field`.
    pub fn zero(field: FieldId) -> (r: FieldElement)
        ensures
            r.wf(),
            r.spec_field() == field,
            r@ == 0,
    {
        FieldElement { field, limbs: [0, 0, 0, 0] }
    }

    /// The one of `field`.
    pub fn one(field: FieldId) -> (r: FieldElement)
        ensures
            r.wf(),
            r.spec_field() == field,
            r@ == 1,
    {
        FieldElement { field, limbs: [1, 0, 0, 0] }
    }
}

} // verus!
