//! End-to-end runs of the pipeline: key generation through `ark_groth16`,
//! then the library's prover and verifier over the serialized bytes.

use zk_pipeline::circuit::Circuit;
use zk_pipeline::field::{fe_from_u64, Fe};
use zk_pipeline::groth16::{prove, verify};
use zk_pipeline::ZkError;

use ark_bn254::{Bn254, Fr};
use ark_groth16::Groth16;
use ark_relations::r1cs::{
    ConstraintSynthesizer, ConstraintSystemRef, LinearCombination, SynthesisError, Variable,
};
use ark_serialize::{CanonicalDeserialize, CanonicalSerialize};
use ark_std::rand::rngs::StdRng;
use ark_std::rand::SeedableRng;

// Mirrors the library's `Circuit` exactly — same variable order, same
// single constraint, as `zk_pipeline::circuit::is_sum_topology` pins it.
// If the two drift apart, setup produces keys for another topology and
// every proof is rejected.
struct SumCircuit {
    a: Option<Fr>,
    b: Option<Fr>,
    c: Option<Fr>,
}

impl ConstraintSynthesizer<Fr> for SumCircuit {
    fn generate_constraints(self, cs: ConstraintSystemRef<Fr>) -> Result<(), SynthesisError> {
        let a = cs.new_witness_variable(|| self.a.ok_or(SynthesisError::AssignmentMissing))?;
        let b = cs.new_witness_variable(|| self.b.ok_or(SynthesisError::AssignmentMissing))?;
        let c = cs.new_input_variable(|| self.c.ok_or(SynthesisError::AssignmentMissing))?;
        cs.enforce_constraint(
            LinearCombination::from(a) + b,
            LinearCombination::from(Variable::One),
            LinearCombination::from(c),
        )?;
        Ok(())
    }
}

fn setup(seed: u64) -> (Vec<u8>, Vec<u8>) {
    let mut rng = StdRng::seed_from_u64(seed);
    let topology = SumCircuit { a: None, b: None, c: None };
    let pk = Groth16::<Bn254>::generate_random_parameters_with_reduction(topology, &mut rng)
        .unwrap();
    let mut pk_bytes = Vec::new();
    pk.serialize_compressed(&mut pk_bytes).unwrap();
    let mut vk_bytes = Vec::new();
    pk.vk.serialize_compressed(&mut vk_bytes).unwrap();
    (pk_bytes, vk_bytes)
}

fn circuit_of(a: u64, b: u64, c: u64) -> Circuit {
    Circuit {
        a: Some(fe_from_u64(a)),
        b: Some(fe_from_u64(b)),
        c: Some(fe_from_u64(c)),
    }
}

fn run(pk: &Vec<u8>, vk: &Vec<u8>, a: u64, b: u64, c: u64) -> bool {
    let proof = prove(pk, &circuit_of(a, b, c), 7).unwrap();
    verify(vk, &proof, &vec![fe_from_u64(c)]).unwrap()
}

#[test]
fn accepted_for_three_plus_four() {
    let (pk, vk) = setup(0);
    assert!(run(&pk, &vk, 3, 4, 7));
}

#[test]
fn rejected_for_wrong_sum() {
    let (pk, vk) = setup(0);
    assert!(!run(&pk, &vk, 3, 4, 8));
}

#[test]
fn accepted_for_zero_sum() {
    let (pk, vk) = setup(0);
    assert!(run(&pk, &vk, 0, 0, 0));
}

#[test]
fn keys_reused_across_proofs() {
    let (pk, vk) = setup(1);
    assert!(run(&pk, &vk, 3, 4, 7));
    assert!(run(&pk, &vk, 10, 20, 30));
    assert!(run(&pk, &vk, 0, 1, 1));
    assert!(!run(&pk, &vk, 5, 5, 11));
    assert!(!run(&pk, &vk, 1, 0, 2));
}

#[test]
fn rejected_against_other_input() {
    let (pk, vk) = setup(0);
    let proof = prove(&pk, &circuit_of(3, 4, 7), 7).unwrap();
    assert!(!verify(&vk, &proof, &vec![fe_from_u64(8)]).unwrap());
}

#[test]
fn rejected_under_keys_of_another_setup() {
    let (pk1, _) = setup(2);
    let (_, vk2) = setup(3);
    let proof = prove(&pk1, &circuit_of(3, 4, 7), 7).unwrap();
    assert!(!verify(&vk2, &proof, &vec![fe_from_u64(7)]).unwrap());
}

#[test]
fn setup_deterministic_for_seed() {
    let (pk1, vk1) = setup(42);
    let (pk2, vk2) = setup(42);
    assert_eq!(pk1, pk2);
    assert_eq!(vk1, vk2);
}

#[test]
fn prove_deterministic_for_seed() {
    let (pk, _) = setup(0);
    let p1 = prove(&pk, &circuit_of(3, 4, 7), 9).unwrap();
    let p2 = prove(&pk, &circuit_of(3, 4, 7), 9).unwrap();
    assert_eq!(p1, p2);
}

#[test]
fn missing_assignment_fails() {
    let (pk, _) = setup(0);
    let no_a = Circuit {
        a: None,
        b: Some(fe_from_u64(4)),
        c: Some(fe_from_u64(7)),
    };
    assert_eq!(prove(&pk, &no_a, 7), Err(ZkError::AssignmentMissing));
    let no_b = Circuit {
        a: Some(fe_from_u64(3)),
        b: None,
        c: Some(fe_from_u64(7)),
    };
    assert_eq!(prove(&pk, &no_b, 7), Err(ZkError::AssignmentMissing));
    let no_c = Circuit {
        a: Some(fe_from_u64(3)),
        b: Some(fe_from_u64(4)),
        c: None,
    };
    assert_eq!(prove(&pk, &no_c, 7), Err(ZkError::AssignmentMissing));
}

// A different topology: three witnesses behind the same public input.
struct WideCircuit {}

impl ConstraintSynthesizer<Fr> for WideCircuit {
    fn generate_constraints(self, cs: ConstraintSystemRef<Fr>) -> Result<(), SynthesisError> {
        let a = cs.new_witness_variable(|| Ok(Fr::from(1u64)))?;
        let b = cs.new_witness_variable(|| Ok(Fr::from(2u64)))?;
        let d = cs.new_witness_variable(|| Ok(Fr::from(3u64)))?;
        let c = cs.new_input_variable(|| Ok(Fr::from(6u64)))?;
        cs.enforce_constraint(
            LinearCombination::from(a) + b + d,
            LinearCombination::from(Variable::One),
            LinearCombination::from(c),
        )?;
        Ok(())
    }
}

#[test]
fn foreign_topology_key_fails() {
    let mut rng = StdRng::seed_from_u64(5);
    let pk = Groth16::<Bn254>::generate_random_parameters_with_reduction(WideCircuit {}, &mut rng)
        .unwrap();
    let mut bytes = Vec::new();
    pk.serialize_compressed(&mut bytes).unwrap();
    assert_eq!(
        prove(&bytes, &circuit_of(3, 4, 7), 7),
        Err(ZkError::KeyTopologyMismatch)
    );
}

#[test]
fn empty_query_key_fails_cleanly() {
    let (pk, _) = setup(0);
    let mut key =
        ark_groth16::ProvingKey::<Bn254>::deserialize_compressed(&pk[..]).unwrap();
    key.a_query = Vec::new();
    let mut bad = Vec::new();
    key.serialize_compressed(&mut bad).unwrap();
    assert_eq!(
        prove(&bad, &circuit_of(3, 4, 7), 7),
        Err(ZkError::KeyTopologyMismatch)
    );
}

#[test]
fn garbage_proving_key_fails() {
    let bad: Vec<u8> = vec![1, 2, 3];
    assert_eq!(
        prove(&bad, &circuit_of(3, 4, 7), 7),
        Err(ZkError::KeyTopologyMismatch)
    );
}

#[test]
fn garbage_verifying_key_fails() {
    let (pk, _) = setup(0);
    let proof = prove(&pk, &circuit_of(3, 4, 7), 7).unwrap();
    let bad: Vec<u8> = vec![9, 9];
    assert_eq!(
        verify(&bad, &proof, &vec![fe_from_u64(7)]),
        Err(ZkError::KeyTopologyMismatch)
    );
}

#[test]
fn garbage_proof_fails() {
    let (_, vk) = setup(0);
    let bad: Vec<u8> = vec![0, 1, 2, 3];
    assert_eq!(
        verify(&vk, &bad, &vec![fe_from_u64(7)]),
        Err(ZkError::MalformedProof)
    );
}

#[test]
fn wrong_input_count_fails() {
    let (pk, vk) = setup(0);
    let proof = prove(&pk, &circuit_of(3, 4, 7), 7).unwrap();
    let none: Vec<Fe> = vec![];
    assert_eq!(
        verify(&vk, &proof, &none),
        Err(ZkError::KeyTopologyMismatch)
    );
    let two: Vec<Fe> = vec![fe_from_u64(7), fe_from_u64(7)];
    assert_eq!(verify(&vk, &proof, &two), Err(ZkError::KeyTopologyMismatch));
}
