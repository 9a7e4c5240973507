//! A Poseidon-based random oracle for folding-style recursive proofs over the
//! BN256 / Grumpkin cycle of curves.
//!
//! The oracle is a one-shot transcript: a fixed number of field elements is
//! absorbed in order, then a single challenge is squeezed, cut down to a
//! number of bits and taken into the partner field of the cycle. It exists
//! twice: outside circuits, on field elements (`native`), and inside circuits,
//! on handles to what a constraint system has allocated (`circuit`). Both cut
//! the hash at the same place (`laws`).
//!
//! The permutation and the field arithmetic are `neptune`'s and
//! `halo2curves`'s (`sponge`); what is claimed of them is stated there and
//! proved nowhere.
pub mod bits;
pub mod circuit;
pub mod constants;
pub mod error;
pub mod field;
pub mod laws;
pub mod native;
pub mod sponge;
pub mod transcript;
