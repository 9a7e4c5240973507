use bellpepper::util_cs::witness_cs::WitnessCS;
use bellpepper_core::boolean::{AllocatedBit, Boolean};
use bellpepper_core::num::AllocatedNum;
use bellpepper_core::test_cs::TestConstraintSystem;
use bellpepper_core::{ConstraintSystem, SynthesisError};
use ff::{Field, PrimeField, PrimeFieldBits};
use generic_array::typenum::U24;
use halo2curves::bn256::{Fq, Fr};
use neptune::circuit2::Elt;
use neptune::poseidon::PoseidonConstants;
use neptune::sponge::api::{IOPattern, SpongeAPI, SpongeOp};
use neptune::sponge::circuit::SpongeCircuit;
use neptune::sponge::vanilla::{Mode, SpongeTrait};
use poseidon_ro::circuit::{
    finish_squeeze, lowest_allocated_bits, PoseidonROCircuit, Signal, SqueezeError,
};
use poseidon_ro::constants::PoseidonConstantsCircuit;
use poseidon_ro::field::{FieldElement, FieldId, FIELD_BITS};
use poseidon_ro::native::PoseidonRO;
use poseidon_ro::transcript::RoError;
use rand::rngs::OsRng;

const NUM_CHALLENGE_BITS: usize = 128;

/// A field of the cycle, with its name in the library and its table.
trait CycleField: PrimeField + PrimeFieldBits + Into<[u64; 4]> {
    const ID: FieldId;

    fn table(constants: &PoseidonConstantsCircuit) -> &PoseidonConstants<Self, U24>;
}

impl CycleField for Fr {
    const ID: FieldId = FieldId::Bn256Scalar;

    fn table(constants: &PoseidonConstantsCircuit) -> &PoseidonConstants<Self, U24> {
        &constants.scalar_table().unwrap().inner
    }
}

impl CycleField for Fq {
    const ID: FieldId = FieldId::Bn256Base;

    fn table(constants: &PoseidonConstantsCircuit) -> &PoseidonConstants<Self, U24> {
        &constants.base_table().unwrap().inner
    }
}

/// Lays the sponge and the strict decomposition of its output down in `cs`.
fn synthesize<F, CS>(
    cs: &mut CS,
    constants: &PoseidonConstantsCircuit,
    absorb_len: u32,
    squeeze_len: u32,
    inputs: &[AllocatedNum<F>],
) -> Result<Vec<Signal<AllocatedBit>>, SynthesisError>
where
    F: CycleField,
    CS: ConstraintSystem<F>,
{
    let parameter = IOPattern(vec![SpongeOp::Absorb(absorb_len), SpongeOp::Squeeze(squeeze_len)]);
    let mut ns = cs.namespace(|| "ns");
    let hash = {
        let mut sponge = SpongeCircuit::new_with_constants(F::table(constants), Mode::Simplex);
        let acc = &mut ns;
        sponge.start(parameter, None, acc);
        let elts: Vec<Elt<F>> = inputs.iter().map(|n| Elt::Allocated(n.clone())).collect();
        SpongeAPI::absorb(&mut sponge, absorb_len, &elts, acc);
        let output = SpongeAPI::squeeze(&mut sponge, squeeze_len, acc);
        sponge.finish(acc).unwrap();
        output
    };
    let hash = Elt::ensure_allocated(&hash[0], &mut ns.namespace(|| "ensure allocated"), true)?;
    let bits = hash.to_bits_le_strict(ns.namespace(|| "poseidon hash to boolean"))?;
    Ok(bits
        .into_iter()
        .map(|b| match b {
            Boolean::Is(x) => Signal::Is(x),
            Boolean::Not(x) => Signal::Not(x),
            Boolean::Constant(c) => Signal::Constant(c),
        })
        .collect())
}

/// The integer of a run of little-endian bits, as limbs.
fn bits_to_limbs(bits: &[AllocatedBit]) -> [u64; 4] {
    let mut limbs = [0u64; 4];
    for (i, bit) in bits.iter().enumerate() {
        if bit.get_value().unwrap() {
            limbs[i / 64] |= 1u64 << (i % 64);
        }
    }
    limbs
}

fn element<F: CycleField>(f: F) -> FieldElement {
    FieldElement::from_limbs(F::ID, f.into()).unwrap()
}

/// A gadget for `n` numbers, with `n` numbers allocated in a witness.
fn filled_gadget(n: usize) -> (PoseidonROCircuit<AllocatedNum<Fr>>, WitnessCS<Fr>) {
    let constants = PoseidonConstantsCircuit::default(FieldId::Bn256Scalar);
    let mut gadget = PoseidonROCircuit::new(constants, n);
    let mut cs = WitnessCS::<Fr>::new();
    for i in 0..n {
        let num = AllocatedNum::alloc_infallible(cs.namespace(|| format!("data {i}")), || {
            Fr::from(i as u64 + 1)
        });
        gadget.absorb(&num).unwrap();
    }
    (gadget, cs)
}

fn never_called(
    _: &PoseidonConstantsCircuit,
    _: u32,
    _: u32,
    _: &Vec<AllocatedNum<Fr>>,
) -> Result<Vec<Signal<AllocatedBit>>, SynthesisError> {
    panic!("the synthesizer is called although the squeeze is refused")
}

fn test_poseidon_ro_with<F: CycleField>() {
    // Check that the number computed inside the circuit is equal to the number
    // computed outside the circuit
    let mut csprng: OsRng = OsRng;
    let constants = PoseidonConstantsCircuit::default(F::ID);
    let num_absorbs = 32;
    let mut ro = PoseidonRO::new(constants.clone(), num_absorbs);
    let mut ro_gadget: PoseidonROCircuit<AllocatedNum<F>> =
        PoseidonROCircuit::new(constants, num_absorbs);
    let mut cs = WitnessCS::<F>::new();
    for i in 0..num_absorbs {
        let num = F::random(&mut csprng);
        ro.absorb(element(num)).unwrap();
        let num_gadget = AllocatedNum::alloc_infallible(cs.namespace(|| format!("data {i}")), || num);
        num_gadget.inputize(&mut cs.namespace(|| format!("input {i}"))).unwrap();
        ro_gadget.absorb(&num_gadget).unwrap();
    }
    let num = ro.squeeze(NUM_CHALLENGE_BITS).unwrap();
    let num2_bits = ro_gadget
        .squeeze(
            |constants: &PoseidonConstantsCircuit, absorb_len, squeeze_len, inputs: &Vec<_>| {
                synthesize(&mut cs, constants, absorb_len, squeeze_len, inputs)
            },
            NUM_CHALLENGE_BITS,
        )
        .unwrap();
    assert_eq!(num2_bits.len(), NUM_CHALLENGE_BITS);
    assert_eq!(num.field(), F::ID.partner());
    assert_eq!(num.limbs(), bits_to_limbs(&num2_bits));
}

#[test]
fn test_poseidon_ro() {
    test_poseidon_ro_with::<Fr>();
    test_poseidon_ro_with::<Fq>();
}

fn agree_with<F: CycleField>(
    constants: &PoseidonConstantsCircuit,
    num_absorbs: usize,
    num_bits: usize,
) {
    let mut ro = PoseidonRO::new(constants.clone(), num_absorbs);
    let mut gadget: PoseidonROCircuit<AllocatedNum<F>> =
        PoseidonROCircuit::new(constants.clone(), num_absorbs);
    let mut cs = TestConstraintSystem::<F>::new();
    for i in 0..num_absorbs {
        let num = F::random(&mut OsRng);
        ro.absorb(element(num)).unwrap();
        let handle = AllocatedNum::alloc_infallible(cs.namespace(|| format!("data {i}")), || num);
        gadget.absorb(&handle).unwrap();
    }
    let native = ro.squeeze(num_bits).unwrap();
    let bits = gadget
        .squeeze(
            |constants: &PoseidonConstantsCircuit, absorb_len, squeeze_len, inputs: &Vec<_>| {
                synthesize(&mut cs, constants, absorb_len, squeeze_len, inputs)
            },
            num_bits,
        )
        .unwrap();
    assert!(cs.is_satisfied());
    assert_eq!(bits.len(), num_bits);
    assert_eq!(native.limbs(), bits_to_limbs(&bits));
}

#[test]
fn native_and_circuit_agree_over_the_scalar_field() {
    let constants = PoseidonConstantsCircuit::default(FieldId::Bn256Scalar);
    for num_absorbs in [0usize, 1, 2, 24, 25, 64] {
        agree_with::<Fr>(&constants, num_absorbs, 128);
    }
    for num_bits in [0usize, 1, 64, 127, 250, 253] {
        agree_with::<Fr>(&constants, 3, num_bits);
    }
}

#[test]
fn native_and_circuit_agree_over_the_base_field() {
    let constants = PoseidonConstantsCircuit::default(FieldId::Bn256Base);
    for num_absorbs in [0usize, 1, 2, 24, 25, 64] {
        agree_with::<Fq>(&constants, num_absorbs, 128);
    }
    for num_bits in [0usize, 1, 64, 127, 250, 253] {
        agree_with::<Fq>(&constants, 3, num_bits);
    }
}

#[test]
fn circuit_hands_out_every_bit_of_the_field() {
    let (mut gadget, mut cs) = filled_gadget(2);
    let bits = gadget
        .squeeze(
            |constants: &PoseidonConstantsCircuit, absorb_len, squeeze_len, inputs: &Vec<_>| {
                synthesize(&mut cs, constants, absorb_len, squeeze_len, inputs)
            },
            FIELD_BITS,
        )
        .unwrap();
    assert_eq!(bits.len(), 254);
}

#[test]
fn circuit_absorb_after_squeeze_is_refused() {
    let (mut gadget, mut cs) = filled_gadget(2);
    gadget
        .squeeze(
            |constants: &PoseidonConstantsCircuit, absorb_len, squeeze_len, inputs: &Vec<_>| {
                synthesize(&mut cs, constants, absorb_len, squeeze_len, inputs)
            },
            8,
        )
        .unwrap();
    let late = AllocatedNum::alloc_infallible(cs.namespace(|| "late"), || Fr::ONE);
    assert_eq!(gadget.absorb(&late), Err(RoError::AlreadySqueezed));
}

#[test]
fn circuit_squeeze_after_squeeze_is_refused() {
    let (mut gadget, mut cs) = filled_gadget(2);
    gadget
        .squeeze(
            |constants: &PoseidonConstantsCircuit, absorb_len, squeeze_len, inputs: &Vec<_>| {
                synthesize(&mut cs, constants, absorb_len, squeeze_len, inputs)
            },
            8,
        )
        .unwrap();
    let again = gadget.squeeze(never_called, 8);
    assert!(matches!(again, Err(SqueezeError::Misuse(RoError::AlreadySqueezed))));
}

#[test]
fn circuit_squeeze_with_too_few_absorbs_is_refused() {
    let constants = PoseidonConstantsCircuit::default(FieldId::Bn256Scalar);
    let mut gadget: PoseidonROCircuit<AllocatedNum<Fr>> = PoseidonROCircuit::new(constants, 3);
    let mut cs = WitnessCS::<Fr>::new();
    let num = AllocatedNum::alloc_infallible(cs.namespace(|| "data"), || Fr::ONE);
    gadget.absorb(&num).unwrap();
    let early = gadget.squeeze(never_called, 8);
    assert!(matches!(early, Err(SqueezeError::Misuse(RoError::AbsorbCountMismatch))));
    // The refusal has changed nothing: the oracle can be filled and squeezed.
    gadget.absorb(&num).unwrap();
    gadget.absorb(&num).unwrap();
    let bits = gadget
        .squeeze(
            |constants: &PoseidonConstantsCircuit, absorb_len, squeeze_len, inputs: &Vec<_>| {
                assert_eq!((absorb_len, squeeze_len, inputs.len()), (3, 1, 3));
                synthesize(&mut cs, constants, absorb_len, squeeze_len, inputs)
            },
            8,
        )
        .unwrap();
    assert_eq!(bits.len(), 8);
}

#[test]
fn circuit_absorb_into_a_full_oracle_is_refused() {
    let (mut gadget, mut cs) = filled_gadget(2);
    let extra = AllocatedNum::alloc_infallible(cs.namespace(|| "extra"), || Fr::ONE);
    assert_eq!(gadget.absorb(&extra), Err(RoError::CapacityExceeded));
}

#[test]
fn circuit_squeeze_of_too_many_bits_is_refused() {
    let (mut gadget, mut cs) = filled_gadget(2);
    let wide = gadget.squeeze(never_called, FIELD_BITS + 1);
    assert!(matches!(wide, Err(SqueezeError::Misuse(RoError::TooManyBits))));
    let bits = gadget
        .squeeze(
            |constants: &PoseidonConstantsCircuit, absorb_len, squeeze_len, inputs: &Vec<_>| {
                synthesize(&mut cs, constants, absorb_len, squeeze_len, inputs)
            },
            FIELD_BITS,
        )
        .unwrap();
    assert_eq!(bits.len(), FIELD_BITS);
}

#[test]
fn circuit_squeeze_of_an_unsupported_capacity_is_refused() {
    let constants = PoseidonConstantsCircuit::default(FieldId::Bn256Scalar);
    let mut gadget: PoseidonROCircuit<AllocatedNum<Fr>> =
        PoseidonROCircuit::new(constants, 0x8000_0000);
    let r = gadget.squeeze(never_called, 8);
    assert!(matches!(r, Err(SqueezeError::Misuse(RoError::CapacityUnsupported))));
}

#[test]
fn circuit_passes_a_synthesis_error_on() {
    let (mut gadget, _cs) = filled_gadget(2);
    let r: Result<Vec<AllocatedBit>, SqueezeError<SynthesisError>> = gadget.squeeze(
        |_: &PoseidonConstantsCircuit, _, _, _: &Vec<AllocatedNum<Fr>>| {
            Err(SynthesisError::AssignmentMissing)
        },
        8,
    );
    assert!(matches!(r, Err(SqueezeError::Synthesis(SynthesisError::AssignmentMissing))));
    // Once the synthesizer has run the oracle is spent.
    let again = gadget.squeeze(never_called, 8);
    assert!(matches!(again, Err(SqueezeError::Misuse(RoError::AlreadySqueezed))));
}

#[test]
fn circuit_refuses_a_signal_that_is_not_allocated() {
    let (mut gadget, _cs) = filled_gadget(2);
    let r: Result<Vec<u8>, SqueezeError<SynthesisError>> = gadget.squeeze(
        |_: &PoseidonConstantsCircuit, _, _, _: &Vec<AllocatedNum<Fr>>| {
            Ok(vec![Signal::Is(1u8), Signal::Is(0u8), Signal::Constant(true)])
        },
        2,
    );
    assert!(matches!(r, Err(SqueezeError::Misuse(RoError::UnallocatedSignal))));
}

#[test]
fn circuit_refuses_a_decomposition_that_is_too_short() {
    let (mut gadget, _cs) = filled_gadget(2);
    let r: Result<Vec<u8>, SqueezeError<SynthesisError>> = gadget.squeeze(
        |_: &PoseidonConstantsCircuit, _, _, _: &Vec<AllocatedNum<Fr>>| {
            Ok(vec![Signal::Is(1u8), Signal::Is(0u8), Signal::Is(1u8)])
        },
        5,
    );
    assert!(matches!(r, Err(SqueezeError::Misuse(RoError::TooManyBits))));
}

#[test]
fn circuit_gives_the_synthesizer_the_handles_in_order() {
    let constants = PoseidonConstantsCircuit::default(FieldId::Bn256Base);
    let mut gadget: PoseidonROCircuit<u32> = PoseidonROCircuit::new(constants, 3);
    gadget.absorb(&30).unwrap();
    gadget.absorb(&10).unwrap();
    gadget.absorb(&20).unwrap();
    let r: Result<Vec<u8>, SqueezeError<()>> = gadget.squeeze(
        |constants: &PoseidonConstantsCircuit, absorb_len, squeeze_len, inputs: &Vec<u32>| {
            assert_eq!(constants.field(), FieldId::Bn256Base);
            assert_eq!(absorb_len, 3);
            assert_eq!(squeeze_len, 1);
            assert_eq!(inputs, &vec![30, 10, 20]);
            Ok(vec![Signal::Is(7u8), Signal::Is(8u8), Signal::Is(9u8)])
        },
        2,
    );
    assert_eq!(r.unwrap(), vec![7, 8]);
}

#[test]
fn lowest_allocated_bits_keeps_the_low_end() {
    let signals = vec![Signal::Is('a'), Signal::Is('b'), Signal::Is('c'), Signal::Is('d')];
    assert_eq!(lowest_allocated_bits(signals, 3), Ok(vec!['a', 'b', 'c']));
    let signals = vec![Signal::Is('a'), Signal::Is('b')];
    assert_eq!(lowest_allocated_bits(signals, 2), Ok(vec!['a', 'b']));
    let signals = vec![Signal::Is('a'), Signal::Is('b')];
    assert_eq!(lowest_allocated_bits(signals, 0), Ok(vec![]));
    assert_eq!(lowest_allocated_bits(Vec::<Signal<char>>::new(), 0), Ok(vec![]));
}

#[test]
fn lowest_allocated_bits_refuses_what_is_not_allocated_anywhere() {
    // The signal that is not allocated lies above the bits that are kept.
    let signals = vec![Signal::Is('a'), Signal::Is('b'), Signal::Not('c')];
    assert_eq!(lowest_allocated_bits(signals, 1), Err(RoError::UnallocatedSignal));
    let signals = vec![Signal::Constant(false), Signal::Is('b')];
    assert_eq!(lowest_allocated_bits(signals, 1), Err(RoError::UnallocatedSignal));
    // It is named before the length is.
    let signals = vec![Signal::Is('a'), Signal::Constant(true)];
    assert_eq!(lowest_allocated_bits(signals, 9), Err(RoError::UnallocatedSignal));
}

#[test]
fn lowest_allocated_bits_refuses_more_than_there_is() {
    let signals = vec![Signal::Is('a'), Signal::Is('b')];
    assert_eq!(lowest_allocated_bits(signals, 3), Err(RoError::TooManyBits));
}

#[test]
fn finish_squeeze_tells_the_outcomes_apart() {
    let ok: Result<Vec<Signal<u8>>, &str> = Ok(vec![Signal::Is(1), Signal::Is(2)]);
    assert!(matches!(finish_squeeze(ok, 1), Ok(bits) if bits == vec![1]));
    let failed: Result<Vec<Signal<u8>>, &str> = Err("no room");
    assert!(matches!(finish_squeeze(failed, 1), Err(SqueezeError::Synthesis("no room"))));
    let short: Result<Vec<Signal<u8>>, &str> = Ok(vec![Signal::Is(1)]);
    assert!(matches!(finish_squeeze(short, 2), Err(SqueezeError::Misuse(RoError::TooManyBits))));
}
