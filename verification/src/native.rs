//! The oracle outside circuits: it absorbs field elements and squeezes one
//! challenge in the partner field.
use crate::bits::{
    bit_at, lemma_add_reduced, lemma_low_bits_bound, lemma_low_bits_step, lemma_low_bits_zero,
    lemma_mod_le, low_bits,
};
use crate::constants::{PoseidonConstantsCircuit, MAX_ABSORBS};
use crate::field::{FieldElement, FieldId};
use crate::sponge::{all_in_field, values};
use crate::transcript::{challenge, RoError, REPR_BITS};
use vstd::arithmetic::div_mod::lemma_small_mod;
use vstd::arithmetic::power2::{lemma2_to64, lemma_pow2_unfold, pow2};
use vstd::prelude::*;

verus! {

/// A Poseidon-based random oracle to use outside circuits.
///
/// It is made for a fixed number of elements of the field of its constants,
/// absorbs them in order, and is squeezed once.
#[derive(Debug)]
pub struct PoseidonRO {
    state: Vec<FieldElement>,
    constants: PoseidonConstantsCircuit,
    num_absorbs: usize,
    squeezed: bool,
}

impl PoseidonRO {
    /// The integers absorbed so far, in the order in which they came.
    pub closed spec fn absorbed(&self) -> Seq<nat> {
        values(self.state@)
    }

    /// The number of elements that the oracle was made for.
    pub closed spec fn capacity(&self) -> nat {
        self.num_absorbs as nat
    }

    /// Whether the oracle has been squeezed.
    pub closed spec fn is_squeezed(&self) -> bool {
        self.squeezed
    }

    /// The field of the elements that the oracle absorbs.
    pub closed spec fn field(&self) -> FieldId {
        self.constants.spec_field()
    }

    /// The oracle never holds more elements than it was made for, and all of
    /// them are of its field.
    pub closed spec fn wf(&self) -> bool {
        &&& self.state@.len() <= self.num_absorbs
        &&& all_in_field(self.state@, self.constants.spec_field())
    }

    /// Why an absorb of `e` is refused, if it is: the first of the reasons
    /// that holds.
    pub open spec fn absorb_error(&self, e: FieldElement) -> Option<RoError> {
        if self.is_squeezed() {
            Some(RoError::AlreadySqueezed)
        } else if e.spec_field() != self.field() {
            Some(RoError::FieldMismatch)
        } else if self.absorbed().len() >= self.capacity() {
            Some(RoError::CapacityExceeded)
        } else {
            None
        }
    }

    /// Why a squeeze of `num_bits` bits is refused, if it is: the first of the
    /// reasons that holds.
    pub open spec fn squeeze_error(&self, num_bits: usize) -> Option<RoError> {
        if self.is_squeezed() {
            Some(RoError::AlreadySqueezed)
        } else if self.capacity() > MAX_ABSORBS {
            Some(RoError::CapacityUnsupported)
        } else if self.absorbed().len() != self.capacity() {
            Some(RoError::AbsorbCountMismatch)
        } else if num_bits > REPR_BITS {
            Some(RoError::TooManyBits)
        } else {
            None
        }
    }

    /// Whether `r` is what a squeeze of `num_bits` bits returns: the reason
    /// for which it is refused, or else the challenge, as an element of the
    /// partner field.
    pub open spec fn squeeze_returns(
        &self,
        num_bits: usize,
        r: Result<FieldElement, RoError>,
    ) -> bool {
        match r {
            Ok(c) => {
                &&& self.squeeze_error(num_bits).is_none()
                &&& c.spec_field() == self.field().spec_partner()
                &&& c@ == challenge(self.field(), self.absorbed(), num_bits as nat)
            },
            Err(err) => self.squeeze_error(num_bits) == Some(err),
        }
    }

    /// An empty oracle for `num_absorbs` elements of the field of `constants`.
    pub fn new(constants: PoseidonConstantsCircuit, num_absorbs: usize) -> (r: Self)
        ensures
            r.wf(),
            r.absorbed() == Seq::<nat>::empty(),
            r.capacity() == num_absorbs,
            !r.is_squeezed(),
            r.field() == constants.spec_field(),
    {
        let r = PoseidonRO { state: Vec::new(), constants, num_absorbs, squeezed: false };
        assert(r.absorbed() =~= Seq::<nat>::empty());
        r
    }

    /// Absorbs a new element into the state of the oracle.
    ///
    /// The element is appended, unless the oracle has been squeezed, the
    /// element is of another field, or the oracle is full; then nothing
    /// changes.
    pub fn absorb(&mut self, e: FieldElement) -> (r: Result<(), RoError>)
        requires
            old(self).wf(),
        ensures
            final(self).wf(),
            final(self).capacity() == old(self).capacity(),
            final(self).field() == old(self).field(),
            final(self).is_squeezed() == old(self).is_squeezed(),
            match r {
                Ok(_) => {
                    &&& old(self).absorb_error(e).is_none()
                    &&& final(self).absorbed() == old(self).absorbed().push(e@)
                },
                Err(err) => {
                    &&& old(self).absorb_error(e) == Some(err)
                    &&& final(self).absorbed() == old(self).absorbed()
                },
            },
    {
        proof {
            use_type_invariant(&e);
        }
        if self.squeezed {
            return Err(RoError::AlreadySqueezed);
        }
        if e.field() != self.constants.field() {
            return Err(RoError::FieldMismatch);
        }
        if self.state.len() >= self.num_absorbs {
            return Err(RoError::CapacityExceeded);
        }
        self.state.push(e);
        assert(values(self.state@) =~= values(old(self).state@).push(e@));
        Ok(())
    }

    /// Computes a challenge by hashing the absorbed elements.
    ///
    /// The sponge absorbs the elements in the order in which they came and
    /// squeezes one element; its `num_bits` lowest bits are added up, each
    /// with its weight, in the partner field. After that the oracle is spent.
    /// A refused squeeze changes nothing.
    pub fn squeeze(&mut self, num_bits: usize) -> (r: Result<FieldElement, RoError>)
        requires
            old(self).wf(),
        ensures
            final(self).wf(),
            final(self).capacity() == old(self).capacity(),
            final(self).field() == old(self).field(),
            final(self).absorbed() == old(self).absorbed(),
            old(self).squeeze_returns(num_bits, r),
            final(self).is_squeezed() == (old(self).is_squeezed() || r.is_ok()),
            r matches Ok(c) ==> c@ < pow2(num_bits as nat),
    {
        if self.squeezed {
            return Err(RoError::AlreadySqueezed);
        }
        if self.num_absorbs > MAX_ABSORBS {
            return Err(RoError::CapacityUnsupported);
        }
        if self.state.len() != self.num_absorbs {
            return Err(RoError::AbsorbCountMismatch);
        }
        if num_bits > REPR_BITS {
            return Err(RoError::TooManyBits);
        }
        let hash = self.constants.hash(&self.state);
        self.squeezed = true;
        let c = embed_low_bits(&hash, num_bits);
        Ok(c)
    }
}

/// Adds up the `num_bits` lowest bits of `hash`, each with its weight `2^i`,
/// in the partner field of `hash`: the weight is doubled from one bit to the
/// next, and every sum is taken in that field.
pub fn embed_low_bits(hash: &FieldElement, num_bits: usize) -> (r: FieldElement)
    requires
        num_bits <= REPR_BITS,
    ensures
        r.spec_field() == hash.spec_field().spec_partner(),
        r@ == low_bits(hash@, num_bits as nat) % hash.spec_field().spec_partner().modulus(),
        r@ < pow2(num_bits as nat),
{
    let target = hash.field().partner();
    let bits = hash.to_le_bits();
    let mut res = FieldElement::zero(target);
    let mut coeff = FieldElement::one(target);
    let ghost h = hash@;
    let ghost m = target.modulus();
    proof {
        lemma_low_bits_zero(h);
        lemma_pow2_unfold(1);
        lemma2_to64();
        lemma_small_mod(0, m);
        lemma_small_mod(1, m);
    }
    let mut i: usize = 0;
    while i < num_bits
        invariant
            i <= num_bits <= REPR_BITS,
            m == target.modulus(),
            m > 1,
            h == hash@,
            bits@.len() == 256,
            forall|j: int| 0 <= j < 256 ==> #[trigger] bits@[j] == bit_at(h, j as nat),
            res.spec_field() == target,
            coeff.spec_field() == target,
            res@ == low_bits(h, i as nat) % m,
            coeff@ == pow2(i as nat) % m,
        decreases num_bits - i,
    {
        proof {
            lemma_low_bits_step(h, i as nat);
            lemma_pow2_unfold((i + 1) as nat);
            lemma_add_reduced(low_bits(h, i as nat), pow2(i as nat), m);
            lemma_add_reduced(pow2(i as nat), pow2(i as nat), m);
            assert(bits@[i as int] == bit_at(h, i as nat));
        }
        if bits[i] {
            res = res.add(&coeff);
        }
        coeff = coeff.add(&coeff);
        i += 1;
    }
    proof {
        lemma_low_bits_bound(h, num_bits as nat);
        lemma_mod_le(low_bits(h, num_bits as nat), m);
    }
    res
}

} // verus!
