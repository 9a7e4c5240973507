//! The errors that the folding layer around the oracle returns.
use vstd::prelude::*;
use vstd::std_specs::convert::FromSpecImpl;

verus! {

/// An error of the folding layer. `E` is the error of the layer below, which
/// is passed on as it came.
#[derive(Debug, PartialEq, Eq)]
pub enum SuperNovaError<E> {
    /// An error of the layer below.
    NovaError(E),
    /// Folding was asked for before there was a commitment key.
    MissingCK,
    /// One of the step circuits is not satisfied: a label that says what was
    /// checked, and the index of the circuit.
    UnSatIndex(&'static str, usize),
}

impl<E> SuperNovaError<E> {
    /// The short name under which the error is reported.
    pub open spec fn spec_message(&self) -> Seq<char> {
        match self {
            SuperNovaError::NovaError(_) => "NovaError"@,
            SuperNovaError::MissingCK => "MissingCK"@,
            SuperNovaError::UnSatIndex(_, _) => "UnSatIndex"@,
        }
    }

    /// The short name under which the error is reported.
    pub fn message(&self) -> (r: &'static str)
        ensures
            r@ == self.spec_message(),
    {
        match self {
            SuperNovaError::NovaError(_) => "NovaError",
            SuperNovaError::MissingCK => "MissingCK",
            SuperNovaError::UnSatIndex(_, _) => "UnSatIndex",
        }
    }

    /// The index of the step circuit that is not satisfied, if that is what
    /// the error says.
    pub fn unsat_index(&self) -> (r: Option<usize>)
        ensures
            r == match *self {
                SuperNovaError::UnSatIndex(_, index) => Some(index),
                _ => None,
            },
    {
        match self {
            SuperNovaError::UnSatIndex(_, index) => Some(*index),
            _ => None,
        }
    }
}

impl<E> From<E> for SuperNovaError<E> {
    fn from(cause: E) -> (r: Self) {
        SuperNovaError::NovaError(cause)
    }
}

impl<E> FromSpecImpl<E> for SuperNovaError<E> {
    open spec fn obeys_from_spec() -> bool {
        true
    }

    open spec fn from_spec(cause: E) -> Self {
        SuperNovaError::NovaError(cause)
    }
}

} // verus!
