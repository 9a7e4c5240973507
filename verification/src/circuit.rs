//! The oracle inside circuits: it absorbs handles to allocated numbers and
//! squeezes the lowest bits of the hash as allocated bits.
//!
//! The constraint system is not known here. The oracle decides what is
//! hashed and what of the result is kept; the caller's synthesizer lays the
//! sponge and the strict decomposition down in its constraint system.
use crate::constants::{PoseidonConstantsCircuit, MAX_ABSORBS};
use crate::field::{FieldId, FIELD_BITS};
use crate::transcript::RoError;
use vstd::prelude::*;

verus! {

/// One signal of a decomposition into booleans.
#[derive(Clone, Debug, PartialEq, Eq)]
pub enum Signal<B> {
    /// An allocated bit.
    Is(B),
    /// The negation of an allocated bit.
    Not(B),
    /// A constant, not allocated.
    Constant(bool),
}

/// Why a squeeze inside a circuit failed.
#[derive(Clone, Debug, PartialEq, Eq)]
pub enum SqueezeError<E> {
    /// The transcript was misused.
    Misuse(RoError),
    /// The synthesizer failed; its error is passed on as it came.
    Synthesis(E),
}

/// A Poseidon-based random oracle gadget to use inside the verifier circuit.
///
/// `N` is the handle to a number allocated in the caller's constraint system.
/// The oracle keeps the handles, not the numbers: what they stand for is the
/// constraint system's to say.
#[derive(Debug)]
pub struct PoseidonROCircuit<N> {
    state: Vec<N>,
    constants: PoseidonConstantsCircuit,
    num_absorbs: usize,
    squeezed: bool,
}

impl<N> PoseidonROCircuit<N> {
    /// The handles absorbed so far, in the order in which they came.
    pub closed spec fn absorbed(&self) -> Vec<N> {
        self.state
    }

    /// The number of handles that the oracle was made for.
    pub closed spec fn capacity(&self) -> nat {
        self.num_absorbs as nat
    }

    /// Whether the oracle has been squeezed.
    pub closed spec fn is_squeezed(&self) -> bool {
        self.squeezed
    }

    /// The constants that the oracle was made with.
    pub closed spec fn spec_constants(&self) -> PoseidonConstantsCircuit {
        self.constants
    }

    /// The field of the numbers behind the handles.
    pub open spec fn field(&self) -> FieldId {
        self.spec_constants().spec_field()
    }

    /// The oracle never holds more handles than it was made for.
    pub closed spec fn wf(&self) -> bool {
        self.state@.len() <= self.num_absorbs
    }

    /// Why an absorb is refused, if it is: the first of the reasons that
    /// holds.
    pub open spec fn absorb_error(&self) -> Option<RoError> {
        if self.is_squeezed() {
            Some(RoError::AlreadySqueezed)
        } else if self.absorbed()@.len() >= self.capacity() {
            Some(RoError::CapacityExceeded)
        } else {
            None
        }
    }

    /// Why a squeeze of `num_bits` bits is refused before anything is
    /// synthesized, if it is: the first of the reasons that holds.
    pub open spec fn squeeze_error(&self, num_bits: usize) -> Option<RoError> {
        if self.is_squeezed() {
            Some(RoError::AlreadySqueezed)
        } else if self.capacity() > MAX_ABSORBS {
            Some(RoError::CapacityUnsupported)
        } else if self.absorbed()@.len() != self.capacity() {
            Some(RoError::AbsorbCountMismatch)
        } else if num_bits > FIELD_BITS {
            Some(RoError::TooManyBits)
        } else {
            None
        }
    }

    /// What the synthesizer is given: the constants, the length of the one
    /// absorb phase, the length of the one squeeze phase, and the handles.
    pub open spec fn synthesizer_input(&self) -> (&PoseidonConstantsCircuit, u32, u32, &Vec<N>) {
        (&self.spec_constants(), self.capacity() as u32, 1u32, &self.absorbed())
    }

    /// Whether `r` is what a squeeze of `num_bits` bits returns: the reason
    /// for which it is refused before anything is synthesized, or else what
    /// becomes of something that `synthesize` may return.
    pub open spec fn squeeze_returns<B, E, S>(
        &self,
        synthesize: S,
        num_bits: usize,
        r: Result<Vec<B>, SqueezeError<E>>,
    ) -> bool where S: FnOnce(&PoseidonConstantsCircuit, u32, u32, &Vec<N>) -> Result<Vec<Signal<B>>, E> {
        match self.squeeze_error(num_bits) {
            Some(err) => r == Err::<Vec<B>, SqueezeError<E>>(SqueezeError::Misuse(err)),
            None => exists|out: Result<Vec<Signal<B>>, E>|
                #[trigger] call_ensures(synthesize, self.synthesizer_input(), out)
                    && is_squeeze_outcome(out, num_bits, r),
        }
    }

    /// Initializes the internal state and sets the Poseidon constants.
    pub fn new(constants: PoseidonConstantsCircuit, num_absorbs: usize) -> (r: Self)
        ensures
            r.wf(),
            r.absorbed()@ == Seq::<N>::empty(),
            r.capacity() == num_absorbs,
            !r.is_squeezed(),
            r.spec_constants() == constants,
    {
        PoseidonROCircuit { state: Vec::new(), constants, num_absorbs, squeezed: false }
    }

    /// The constants that the oracle was made with.
    pub fn constants(&self) -> (r: &PoseidonConstantsCircuit)
        ensures
            *r == self.spec_constants(),
    {
        &self.constants
    }

    /// Absorbs a new number into the state of the oracle.
    ///
    /// A clone of the handle is appended, unless the oracle has been squeezed
    /// or is full; then nothing changes.
    pub fn absorb(&mut self, e: &N) -> (r: Result<(), RoError>) where N: Clone
        requires
            old(self).wf(),
        ensures
            final(self).wf(),
            final(self).capacity() == old(self).capacity(),
            final(self).spec_constants() == old(self).spec_constants(),
            final(self).is_squeezed() == old(self).is_squeezed(),
            match r {
                Ok(_) => {
                    &&& old(self).absorb_error().is_none()
                    &&& final(self).absorbed()@.len() == old(self).absorbed()@.len() + 1
                    &&& final(self).absorbed()@.drop_last() == old(self).absorbed()@
                    &&& cloned(*e, final(self).absorbed()@.last())
                },
                Err(err) => old(self).absorb_error() == Some(err) && final(self).absorbed()
                    == old(self).absorbed(),
            },
    {
        if self.squeezed {
            return Err(RoError::AlreadySqueezed);
        }
        if self.state.len() >= self.num_absorbs {
            return Err(RoError::CapacityExceeded);
        }
        let handle = e.clone();
        self.state.push(handle);
        assert(self.state@.drop_last() =~= old(self).state@);
        Ok(())
    }

    /// Computes a challenge by hashing the absorbed numbers, inside the
    /// circuit.
    ///
    /// `synthesize` stands for the caller's constraint system. It is given
    /// the constants, the pattern of the sponge, one absorb phase of the first
    /// length and one squeeze phase of the second, and the handles in the
    /// order in which they came; it lays down the sponge and the strict
    /// decomposition of the element squeezed, and returns the signals, least
    /// significant first. The oracle hands out the `num_bits` lowest of them.
    ///
    /// A squeeze refused before `synthesize` is called changes nothing. Once
    /// it is called the oracle is spent, whatever comes back.
    pub fn squeeze<B, E, S>(&mut self, synthesize: S, num_bits: usize) -> (r: Result<
        Vec<B>,
        SqueezeError<E>,
    >) where S: FnOnce(&PoseidonConstantsCircuit, u32, u32, &Vec<N>) -> Result<Vec<Signal<B>>, E>
        requires
            old(self).wf(),
            old(self).squeeze_error(num_bits).is_none() ==> call_requires(
                synthesize,
                old(self).synthesizer_input(),
            ),
        ensures
            final(self).wf(),
            final(self).capacity() == old(self).capacity(),
            final(self).spec_constants() == old(self).spec_constants(),
            final(self).absorbed() == old(self).absorbed(),
            final(self).is_squeezed() == (old(self).is_squeezed() || old(self).squeeze_error(
                num_bits,
            ).is_none()),
            old(self).squeeze_returns(synthesize, num_bits, r),
    {
        if self.squeezed {
            return Err(SqueezeError::Misuse(RoError::AlreadySqueezed));
        }
        if self.num_absorbs > MAX_ABSORBS {
            return Err(SqueezeError::Misuse(RoError::CapacityUnsupported));
        }
        if self.state.len() != self.num_absorbs {
            return Err(SqueezeError::Misuse(RoError::AbsorbCountMismatch));
        }
        if num_bits > FIELD_BITS {
            return Err(SqueezeError::Misuse(RoError::TooManyBits));
        }
        self.squeezed = true;
        let absorb_len: u32 = self.num_absorbs as u32;
        let squeeze_len: u32 = 1;
        let out = synthesize(&self.constants, absorb_len, squeeze_len, &self.state);
        finish_squeeze(out, num_bits)
    }
}

/// Whether `r` is what a squeeze returns when the synthesizer returned
/// `out`: the synthesizer's error as it came, or else the reason for which
/// the signals cannot be handed out, or else the `num_bits` lowest of them.
pub open spec fn is_squeeze_outcome<B, E>(
    out: Result<Vec<Signal<B>>, E>,
    num_bits: usize,
    r: Result<Vec<B>, SqueezeError<E>>,
) -> bool {
    match (r, out) {
        (Err(SqueezeError::Synthesis(e)), Err(cause)) => e == cause,
        (Err(SqueezeError::Misuse(err)), Ok(signals)) => signals_error(signals@, num_bits) == Some(
            err,
        ),
        (Ok(bits), Ok(signals)) => signals_error(signals@, num_bits).is_none() && bits@
            == allocated(signals@).take(num_bits as int),
        _ => false,
    }
}

/// Whether every signal is an allocated bit.
pub open spec fn all_allocated<B>(signals: Seq<Signal<B>>) -> bool {
    forall|i: int| 0 <= i < signals.len() ==> (#[trigger] signals[i]) is Is
}

/// The allocated bits of the signals, in order.
pub open spec fn allocated<B>(signals: Seq<Signal<B>>) -> Seq<B>
    recommends
        all_allocated(signals),
{
    Seq::new(signals.len(), |i: int| signals[i]->Is_0)
}

/// Why the `num_bits` lowest signals cannot be handed out, if they cannot:
/// the first of the reasons that holds.
pub open spec fn signals_error<B>(signals: Seq<Signal<B>>, num_bits: usize) -> Option<RoError> {
    if !all_allocated(signals) {
        Some(RoError::UnallocatedSignal)
    } else if num_bits > signals.len() {
        Some(RoError::TooManyBits)
    } else {
        None
    }
}

/// The `num_bits` lowest signals of a little-endian decomposition, as
/// allocated bits, in the order of the decomposition.
///
/// Every signal of the decomposition has to be an allocated bit, also those
/// that are not kept.
pub fn lowest_allocated_bits<B>(signals: Vec<Signal<B>>, num_bits: usize) -> (r: Result<
    Vec<B>,
    RoError,
>)
    ensures
        match r {
            Ok(bits) => signals_error(signals@, num_bits).is_none() && bits@ == allocated(
                signals@,
            ).take(num_bits as int),
            Err(err) => signals_error(signals@, num_bits) == Some(err),
        },
{
    let mut rest = signals;
    let mut i: usize = 0;
    while i < rest.len()
        invariant
            rest@ == signals@,
            i <= rest@.len(),
            forall|j: int| 0 <= j < i ==> (#[trigger] rest@[j]) is Is,
        decreases rest@.len() - i,
    {
        match &rest[i] {
            Signal::Is(_) => {},
            _ => {
                return Err(RoError::UnallocatedSignal);
            },
        }
        i += 1;
    }
    if num_bits > rest.len() {
        return Err(RoError::TooManyBits);
    }
    rest.truncate(num_bits);
    let mut reversed: Vec<B> = Vec::new();
    while rest.len() > 0
        invariant
            num_bits <= signals@.len(),
            all_allocated(signals@),
            rest@.len() + reversed@.len() == num_bits,
            rest@ == signals@.take(rest@.len() as int),
            forall|j: int|
                0 <= j < reversed@.len() ==> #[trigger] reversed@[j] == allocated(
                    signals@,
                )[num_bits - 1 - j],
        decreases rest@.len(),
    {
        assert(rest@.last() == signals@[rest@.len() - 1]);
        if let Some(Signal::Is(b)) = rest.pop() {
            reversed.push(b);
        }
        assert(rest@ =~= signals@.take(rest@.len() as int));
    }
    let mut bits: Vec<B> = Vec::new();
    while reversed.len() > 0
        invariant
            num_bits <= signals@.len(),
            bits@.len() + reversed@.len() == num_bits,
            forall|j: int|
                0 <= j < reversed@.len() ==> #[trigger] reversed@[j] == allocated(
                    signals@,
                )[num_bits - 1 - j],
            forall|j: int| 0 <= j < bits@.len() ==> #[trigger] bits@[j] == allocated(signals@)[j],
        decreases reversed@.len(),
    {
        if let Some(b) = reversed.pop() {
            bits.push(b);
        }
    }
    assert(bits@ =~= allocated(signals@).take(num_bits as int));
    Ok(bits)
}

/// Turns what the synthesizer returned into what the squeeze returns: its
/// error as it came, or the `num_bits` lowest signals as allocated bits.
pub fn finish_squeeze<B, E>(out: Result<Vec<Signal<B>>, E>, num_bits: usize) -> (r: Result<
    Vec<B>,
    SqueezeError<E>,
>)
    ensures
        is_squeeze_outcome(out, num_bits, r),
{
    match out {
        Err(e) => Err(SqueezeError::Synthesis(e)),
        Ok(signals) => match lowest_allocated_bits(signals, num_bits) {
            Ok(bits) => Ok(bits),
            Err(err) => Err(SqueezeError::Misuse(err)),
        },
    }
}

} // verus!
