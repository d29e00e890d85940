//! A small zero-knowledge proof pipeline for the relation a + b = c over
//! the BN254 scalar field: a rank-1 constraint system, the circuit that
//! encodes the relation, and a Groth16 prover and verifier working over
//! serialized key and proof bytes.

pub mod field;
pub mod r1cs;
pub mod circuit;
pub mod groth16;

use vstd::prelude::*;

verus! {

/// Whether a result is this success value.
pub open spec fn res_is_ok<T>(r: Result<T, ZkError>, v: T) -> bool {
    r matches Ok(a) && a == v
}

/// Whether a result is this error.
pub open spec fn res_is_err<T>(r: Result<T, ZkError>, e: ZkError) -> bool {
    r matches Err(a) && a == e
}

/// How a pipeline stage fails. Rejection of a proof is not among these:
/// the verifier reports it as an ordinary boolean result.
#[derive(Clone, Copy, Debug, PartialEq, Eq, Structural)]
pub enum ZkError {
    /// A declared variable had no bound value while constraints were
    /// generated in proving mode.
    AssignmentMissing,
    /// A string that should denote a field element does not parse.
    MalformedInput,
    /// Key material that is malformed or belongs to another circuit
    /// topology than the one in use.
    KeyTopologyMismatch,
    /// Proof bytes that do not decode to a proof.
    MalformedProof,
}

} // verus!
