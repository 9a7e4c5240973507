//! What the native and the circuit oracle share: the ways in which a
//! transcript can be misused, and the challenge that a transcript stands for.
use crate::bits::low_bits;
use crate::field::FieldId;
use crate::sponge::poseidon_sponge;
use vstd::prelude::*;

verus! {

/// The number of bits in the decomposition of an element outside circuits.
pub const REPR_BITS: usize = 256;

/// A misuse of a one-shot transcript.
#[derive(Clone, Copy, Debug, PartialEq, Eq, Structural)]
pub enum RoError {
    /// An absorb or a squeeze after the one squeeze that a transcript allows.
    AlreadySqueezed,
    /// An absorb of an element that is not of the transcript's field.
    FieldMismatch,
    /// An absorb into a transcript that already holds as many elements as it
    /// was made for.
    CapacityExceeded,
    /// A squeeze of a transcript made for more elements than one absorb phase
    /// of the sponge takes.
    CapacityUnsupported,
    /// A squeeze of a transcript that holds fewer elements than it was made
    /// for.
    AbsorbCountMismatch,
    /// A squeeze of more bits than the decomposition of the hash has.
    TooManyBits,
    /// A signal of the decomposition that is not an allocated bit.
    UnallocatedSignal,
}

/// The challenge of a transcript: the sponge's output over the absorbed
/// integers, in `field`, cut down to its `num_bits` lowest bits and reduced
/// into the partner field.
pub open spec fn challenge(field: FieldId, absorbed: Seq<nat>, num_bits: nat) -> nat {
    low_bits(poseidon_sponge(field, absorbed), num_bits) % field.spec_partner().modulus()
}

} // verus!
