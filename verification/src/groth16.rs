//! The Groth16 prover and verifier, reached through `ark_groth16` over
//! explicit constraint matrices. Keys and proofs travel as serialized
//! bytes; the matrices and the assignment are built by verified code
//! from the constraint system and handed over element by element.

use vstd::prelude::*;
use crate::field::Fe;
use crate::r1cs::{ConstraintSystem, Constraint, LinComb, SynthesisMode, Var, lc_wf};
use crate::circuit::Circuit;
use crate::ZkError;
use ark_serialize::{CanonicalDeserialize, CanonicalSerialize};
use ark_std::rand::SeedableRng;
use ark_std::rand::rngs::StdRng;
use ark_std::UniformRand;
use ark_bn254::{Bn254, Fr};
use ark_groth16::{Groth16, ProvingKey};
use ark_relations::r1cs::ConstraintMatrices;

verus! {

/// Constraint matrix rows for the prover, held in the field type of
/// `ark_bn254`, which the verifier cannot model; its contents are
/// described by `fr_matrix_view` alone.
#[verifier::external_body]
pub struct FrMatrix {
    rows: Vec<Vec<(Fr, usize)>>,
}

/// The rows a matrix holds: for each constraint, the (coefficient value,
/// column) pairs of one linear combination.
pub uninterp spec fn fr_matrix_view(m: FrMatrix) -> Seq<Seq<(nat, nat)>>;

/// A variable assignment for the prover, held in the field type of
/// `ark_bn254`; its contents are described by `fr_vec_view` alone.
#[verifier::external_body]
pub struct FrVec {
    v: Vec<Fr>,
}

/// The field values the vector holds, in order.
pub uninterp spec fn fr_vec_view(v: FrVec) -> Seq<nat>;

/// What the Groth16 prover returns for the given key bytes, matrices,
/// variable counts, assignment and randomness seed; it is a function of
/// these alone, since the two blinding scalars are drawn from a seeded
/// generator. It is the serialized proof, or nothing when the key bytes
/// do not decode or proving fails.
pub uninterp spec fn groth16_prove_of(
    pk: Seq<u8>,
    ma: Seq<Seq<(nat, nat)>>,
    mb: Seq<Seq<(nat, nat)>>,
    mc: Seq<Seq<(nat, nat)>>,
    num_instance: nat,
    num_witness: nat,
    num_constraints: nat,
    assignment: Seq<nat>,
    seed: u64,
) -> Option<Seq<u8>>;

/// Whether the bytes decode to a verifying key.
pub uninterp spec fn groth16_vk_ok(vk: Seq<u8>) -> bool;

/// Whether the bytes decode to a proof.
pub uninterp spec fn groth16_proof_ok(proof: Seq<u8>) -> bool;

/// The lengths of the three query vectors inside decoded proving-key
/// bytes (the A query and the B queries in both groups), or nothing
/// when the bytes do not decode; a function of the bytes alone.
pub uninterp spec fn groth16_pk_query_lens(pk: Seq<u8>) -> Option<(nat, nat, nat)>;

/// What the Groth16 verifier returns for the given verifying-key bytes,
/// proof bytes and public-input values: accept or reject, or nothing
/// when either byte string does not decode or the input count does not
/// fit the key.
pub uninterp spec fn groth16_verdict(vk: Seq<u8>, proof: Seq<u8>, inputs: Seq<nat>)
    -> Option<bool>;

/// Relies on `Vec::new`: an empty matrix.
#[verifier::external_body]
fn fr_matrix_new() -> (r: FrMatrix)
    ensures
        fr_matrix_view(r) == Seq::<Seq<(nat, nat)>>::empty(),
{
    FrMatrix { rows: Vec::new() }
}

/// Relies on `Vec::push`: one more row, empty.
#[verifier::external_body]
fn fr_matrix_push_row(m: &mut FrMatrix)
    ensures
        fr_matrix_view(*final(m)) == fr_matrix_view(*old(m)).push(
            Seq::<(nat, nat)>::empty()),
{
    m.rows.push(Vec::new());
}

/// Relies on `ark_ff`'s `from_bigint` and `Vec::push`: the coefficient,
/// carried into the field type unchanged in value, is appended to the
/// last row with its column.
#[verifier::external_body]
fn fr_matrix_push_term(m: &mut FrMatrix, coeff: &Fe, col: usize)
    requires
        fr_matrix_view(*old(m)).len() > 0,
    ensures
        fr_matrix_view(*final(m)) == fr_matrix_view(*old(m)).update(
            fr_matrix_view(*old(m)).len() - 1,
            fr_matrix_view(*old(m)).last().push((coeff.val(), col as nat)),
        ),
{
    let f = <Fr as ark_ff::PrimeField>::from_bigint(
        ark_ff::BigInt::new([coeff.l0, coeff.l1, coeff.l2, coeff.l3])).unwrap();
    m.rows.last_mut().unwrap().push((f, col));
}

/// Relies on `Vec::new`: an empty assignment vector.
#[verifier::external_body]
fn fr_vec_new() -> (r: FrVec)
    ensures
        fr_vec_view(r) == Seq::<nat>::empty(),
{
    FrVec { v: Vec::new() }
}

/// Relies on `ark_ff`'s `from_bigint` and `Vec::push`: the element,
/// carried into the field type unchanged in value, is appended.
#[verifier::external_body]
fn fr_vec_push(v: &mut FrVec, x: &Fe)
    ensures
        fr_vec_view(*final(v)) == fr_vec_view(*old(v)).push(x.val()),
{
    let f = <Fr as ark_ff::PrimeField>::from_bigint(
        ark_ff::BigInt::new([x.l0, x.l1, x.l2, x.l3])).unwrap();
    v.v.push(f);
}

/// Relies on the compressed deserialization of `ark_serialize`: the
/// sizes of the decoded key's query vectors, read off so that the
/// prover is only reached with a key whose shape fits the circuit
/// (`ark_groth16`'s prover indexes the first entry of each query
/// unconditionally, so an undersized key would abort).
#[verifier::external_body]
fn groth16_pk_shape(pk: &Vec<u8>) -> (r: Option<(usize, usize, usize)>)
    ensures
        r is Some <==> groth16_pk_query_lens(pk@) is Some,
        r matches Some(t) ==> groth16_pk_query_lens(pk@)
            == Some((t.0 as nat, t.1 as nat, t.2 as nat)),
{
    match ProvingKey::<Bn254>::deserialize_compressed(&pk[..]) {
        Ok(k) => Some((k.a_query.len(), k.b_g1_query.len(), k.b_g2_query.len())),
        Err(_) => None,
    }
}

/// Relies on `ark_groth16::Groth16::create_proof_with_reduction_and_matrices`
/// and the compressed (de)serialization of `ark_serialize`: the proof is a
/// function of the key bytes, the matrices, the counts, the assignment and
/// the seed, and fails exactly when the prover itself fails. The key
/// bytes must decode to a key whose query vectors each hold one entry
/// per variable and one more, which keeps the prover from indexing an
/// empty query. The non-zero tallies of `ConstraintMatrices` are not
/// consulted on this path, so they are passed as zero.
#[verifier::external_body]
fn groth16_prove_raw(
    pk: &Vec<u8>,
    ma: &FrMatrix,
    mb: &FrMatrix,
    mc: &FrMatrix,
    num_instance_variables: usize,
    num_witness_variables: usize,
    num_constraints: usize,
    assignment: &FrVec,
    seed: u64,
) -> (r: Result<Vec<u8>, ZkError>)
    requires
        groth16_pk_query_lens(pk@) == Some((
            (num_instance_variables + num_witness_variables) as nat,
            (num_instance_variables + num_witness_variables) as nat,
            (num_instance_variables + num_witness_variables) as nat,
        )),
        1 <= num_instance_variables,
        num_instance_variables + num_witness_variables <= fr_vec_view(*assignment).len(),
        fr_vec_view(*assignment).len() <= num_instance_variables + num_witness_variables,
        num_constraints + num_instance_variables < usize::MAX,
        fr_matrix_view(*ma).len() == num_constraints,
        fr_matrix_view(*mb).len() == num_constraints,
        fr_matrix_view(*mc).len() == num_constraints,
        forall|i: int, j: int| 0 <= i < num_constraints
            && 0 <= j < fr_matrix_view(*ma)[i].len()
            ==> (#[trigger] fr_matrix_view(*ma)[i][j]).1 < fr_vec_view(*assignment).len(),
        forall|i: int, j: int| 0 <= i < num_constraints
            && 0 <= j < fr_matrix_view(*mb)[i].len()
            ==> (#[trigger] fr_matrix_view(*mb)[i][j]).1 < fr_vec_view(*assignment).len(),
        forall|i: int, j: int| 0 <= i < num_constraints
            && 0 <= j < fr_matrix_view(*mc)[i].len()
            ==> (#[trigger] fr_matrix_view(*mc)[i][j]).1 < fr_vec_view(*assignment).len(),
    ensures
        r matches Ok(p) ==> groth16_prove_of(pk@, fr_matrix_view(*ma), fr_matrix_view(*mb),
            fr_matrix_view(*mc), num_instance_variables as nat, num_witness_variables as nat,
            num_constraints as nat, fr_vec_view(*assignment), seed) == Some(p@),
        r matches Err(e) ==> e == ZkError::KeyTopologyMismatch
            && groth16_prove_of(pk@, fr_matrix_view(*ma), fr_matrix_view(*mb),
                fr_matrix_view(*mc), num_instance_variables as nat, num_witness_variables as nat,
                num_constraints as nat, fr_vec_view(*assignment), seed) is None,
{
    let e = ZkError::KeyTopologyMismatch;
    let key = ProvingKey::<Bn254>::deserialize_compressed(&pk[..]).or(Err(e))?;
    let mats = ConstraintMatrices {
        num_instance_variables, num_witness_variables, num_constraints,
        a_num_non_zero: 0, b_num_non_zero: 0, c_num_non_zero: 0,
        a: ma.rows.clone(), b: mb.rows.clone(), c: mc.rows.clone(),
    };
    let mut rng = StdRng::seed_from_u64(seed);
    let proof = Groth16::<Bn254>::create_proof_with_reduction_and_matrices(
        &key, Fr::rand(&mut rng), Fr::rand(&mut rng), &mats, num_instance_variables,
        num_constraints, &assignment.v).or(Err(e))?;
    let mut out = Vec::new();
    proof.serialize_compressed(&mut out).or(Err(e))?;
    Ok(out)
}

/// Relies on `ark_groth16`'s `prepare_verifying_key` and `verify_proof`
/// and the compressed deserialization of `ark_serialize`: the verdict is
/// a function of the key bytes, the proof bytes and the inputs; bytes
/// that do not decode are the only sources of the two failures, except
/// for an input count that does not fit the key, which fails like a bad
/// key.
#[verifier::external_body]
fn groth16_verify_raw(vk: &Vec<u8>, proof: &Vec<u8>, inputs: &FrVec)
    -> (r: Result<bool, ZkError>)
    ensures
        r is Ok <==> groth16_verdict(vk@, proof@, fr_vec_view(*inputs)) is Some,
        r matches Ok(b) ==> groth16_verdict(vk@, proof@, fr_vec_view(*inputs)) == Some(b),
        crate::res_is_err(r, ZkError::MalformedProof) <==> (groth16_vk_ok(vk@)
            && !groth16_proof_ok(proof@)),
        crate::res_is_err(r, ZkError::KeyTopologyMismatch) <==> (!groth16_vk_ok(vk@)
            || (groth16_proof_ok(proof@) && groth16_verdict(vk@, proof@,
                fr_vec_view(*inputs)) is None)),
{
    let key = ark_groth16::VerifyingKey::<Bn254>::deserialize_compressed(&vk[..])
        .map_err(|_| ZkError::KeyTopologyMismatch)?;
    let pf = ark_groth16::Proof::<Bn254>::deserialize_compressed(&proof[..])
        .map_err(|_| ZkError::MalformedProof)?;
    let pvk = ark_groth16::prepare_verifying_key(&key);
    Groth16::<Bn254>::verify_proof(&pvk, &pf, &inputs.v)
        .map_err(|_| ZkError::KeyTopologyMismatch)
}

/// The column a variable occupies in the prover's matrices: the constant
/// one first, then the public inputs, then the witnesses.
pub open spec fn var_col(v: Var, num_input: nat) -> nat {
    match v {
        Var::One => 0,
        Var::Input(i) => (1 + i) as nat,
        Var::Witness(j) => (1 + num_input + j) as nat,
    }
}

/// A linear combination as one matrix row: each term's coefficient value
/// with its variable's column.
pub open spec fn lc_cols(terms: Seq<(Fe, Var)>, num_input: nat) -> Seq<(nat, nat)> {
    terms.map_values(|t: (Fe, Var)| (t.0.val(), var_col(t.1, num_input)))
}

/// The column of one variable.
fn var_col_exec(v: Var, num_input: usize, num_witness: usize) -> (r: usize)
    requires
        num_input + num_witness + 1 <= usize::MAX,
        v matches Var::Input(i) ==> i < num_input,
        v matches Var::Witness(j) ==> j < num_witness,
    ensures
        r == var_col(v, num_input as nat),
{
    match v {
        Var::One => 0,
        Var::Input(i) => 1 + i,
        Var::Witness(j) => 1 + num_input + j,
    }
}

/// Append one linear combination to a matrix as a new row.
fn push_lc_row(m: &mut FrMatrix, lc: &LinComb, num_input: usize, num_witness: usize)
    requires
        num_input + num_witness + 1 <= usize::MAX,
        lc_wf(lc.terms@, num_witness as nat, num_input as nat),
    ensures
        fr_matrix_view(*final(m)) == fr_matrix_view(*old(m)).push(
            lc_cols(lc.terms@, num_input as nat)),
{
    fr_matrix_push_row(m);
    let n = lc.terms.len();
    let mut j: usize = 0;
    assert(lc_cols(lc.terms@.take(0), num_input as nat) =~= Seq::<(nat, nat)>::empty());
    while j < n
        invariant
            n == lc.terms@.len(),
            0 <= j <= n,
            num_input + num_witness + 1 <= usize::MAX,
            lc_wf(lc.terms@, num_witness as nat, num_input as nat),
            fr_matrix_view(*m) == fr_matrix_view(*old(m)).push(
                lc_cols(lc.terms@.take(j as int), num_input as nat)),
        decreases n - j,
    {
        let coeff = lc.terms[j].0;
        let var = lc.terms[j].1;
        let col = var_col_exec(var, num_input, num_witness);
        let ghost pre = fr_matrix_view(*m);
        fr_matrix_push_term(m, &coeff, col);
        proof {
            let base = fr_matrix_view(*old(m));
            let row_j = lc_cols(lc.terms@.take(j as int), num_input as nat);
            let row_j1 = lc_cols(lc.terms@.take(j + 1 as int), num_input as nat);
            assert(pre.last() == row_j);
            assert(pre.len() - 1 == base.len());
            assert(row_j1 =~= row_j.push((coeff.val(), var_col(var, num_input as nat))));
            assert(fr_matrix_view(*m) =~= base.push(row_j1));
        }
        j = j + 1;
    }
    assert(lc.terms@.take(n as int) =~= lc.terms@);
}

/// Build the three prover matrices of a constraint system, row for row.
fn build_matrices(cs: &ConstraintSystem) -> (r: (FrMatrix, FrMatrix, FrMatrix))
    requires
        cs.wf(),
        cs.num_input + cs.num_witness + 1 <= usize::MAX,
    ensures
        fr_matrix_view(r.0) == cs.constraints@.map_values(
            |k: Constraint| lc_cols(k.a.terms@, cs.num_input as nat)),
        fr_matrix_view(r.1) == cs.constraints@.map_values(
            |k: Constraint| lc_cols(k.b.terms@, cs.num_input as nat)),
        fr_matrix_view(r.2) == cs.constraints@.map_values(
            |k: Constraint| lc_cols(k.c.terms@, cs.num_input as nat)),
{
    let ghost fa = |k: Constraint| lc_cols(k.a.terms@, cs.num_input as nat);
    let ghost fb = |k: Constraint| lc_cols(k.b.terms@, cs.num_input as nat);
    let ghost fc = |k: Constraint| lc_cols(k.c.terms@, cs.num_input as nat);
    let mut ma = fr_matrix_new();
    let mut mb = fr_matrix_new();
    let mut mc = fr_matrix_new();
    let n = cs.constraints.len();
    let mut i: usize = 0;
    assert(cs.constraints@.take(0).map_values(fa) =~= Seq::<Seq<(nat, nat)>>::empty());
    assert(cs.constraints@.take(0).map_values(fb) =~= Seq::<Seq<(nat, nat)>>::empty());
    assert(cs.constraints@.take(0).map_values(fc) =~= Seq::<Seq<(nat, nat)>>::empty());
    while i < n
        invariant
            n == cs.constraints@.len(),
            0 <= i <= n,
            cs.wf(),
            cs.num_input + cs.num_witness + 1 <= usize::MAX,
            fr_matrix_view(ma) == cs.constraints@.take(i as int).map_values(fa),
            fr_matrix_view(mb) == cs.constraints@.take(i as int).map_values(fb),
            fr_matrix_view(mc) == cs.constraints@.take(i as int).map_values(fc),
            fa == (|k: Constraint| lc_cols(k.a.terms@, cs.num_input as nat)),
            fb == (|k: Constraint| lc_cols(k.b.terms@, cs.num_input as nat)),
            fc == (|k: Constraint| lc_cols(k.c.terms@, cs.num_input as nat)),
        decreases n - i,
    {
        let k = &cs.constraints[i];
        push_lc_row(&mut ma, &k.a, cs.num_input, cs.num_witness);
        push_lc_row(&mut mb, &k.b, cs.num_input, cs.num_witness);
        push_lc_row(&mut mc, &k.c, cs.num_input, cs.num_witness);
        proof {
            assert(cs.constraints@.take(i + 1 as int).map_values(fa)
                =~= cs.constraints@.take(i as int).map_values(fa).push(
                    lc_cols(cs.constraints@[i as int].a.terms@, cs.num_input as nat)));
            assert(cs.constraints@.take(i + 1 as int).map_values(fb)
                =~= cs.constraints@.take(i as int).map_values(fb).push(
                    lc_cols(cs.constraints@[i as int].b.terms@, cs.num_input as nat)));
            assert(cs.constraints@.take(i + 1 as int).map_values(fc)
                =~= cs.constraints@.take(i as int).map_values(fc).push(
                    lc_cols(cs.constraints@[i as int].c.terms@, cs.num_input as nat)));
        }
        i = i + 1;
    }
    assert(cs.constraints@.take(n as int) =~= cs.constraints@);
    (ma, mb, mc)
}

/// The values of a sequence of field elements.
pub open spec fn fe_vals(s: Seq<Fe>) -> Seq<nat> {
    s.map_values(|f: Fe| f.val())
}

/// Build the prover's full assignment: the constant one, then the public
/// inputs, then the witnesses, as `ark_groth16` lays them out.
fn build_assignment(cs: &ConstraintSystem) -> (r: FrVec)
    ensures
        fr_vec_view(r) == seq![1nat] + fe_vals(cs.instance_assignment@)
            + fe_vals(cs.witness_assignment@),
{
    let mut v = fr_vec_new();
    let one = crate::field::fe_from_u64(1);
    fr_vec_push(&mut v, &one);
    assert(fr_vec_view(v) =~= seq![1nat] + fe_vals(cs.instance_assignment@.take(0))
        + fe_vals(cs.witness_assignment@.take(0)));
    let n = cs.instance_assignment.len();
    let mut i: usize = 0;
    while i < n
        invariant
            n == cs.instance_assignment@.len(),
            0 <= i <= n,
            fr_vec_view(v) == seq![1nat] + fe_vals(cs.instance_assignment@.take(i as int))
                + fe_vals(cs.witness_assignment@.take(0)),
        decreases n - i,
    {
        fr_vec_push(&mut v, &cs.instance_assignment[i]);
        proof {
            assert(fe_vals(cs.instance_assignment@.take(i + 1 as int))
                =~= fe_vals(cs.instance_assignment@.take(i as int)).push(
                    cs.instance_assignment@[i as int].val()));
            assert(fr_vec_view(v) =~= seq![1nat]
                + fe_vals(cs.instance_assignment@.take(i + 1 as int))
                + fe_vals(cs.witness_assignment@.take(0)));
        }
        i = i + 1;
    }
    assert(cs.instance_assignment@.take(n as int) =~= cs.instance_assignment@);
    let nw = cs.witness_assignment.len();
    let mut j: usize = 0;
    while j < nw
        invariant
            nw == cs.witness_assignment@.len(),
            n == cs.instance_assignment@.len(),
            0 <= j <= nw,
            fr_vec_view(v) == seq![1nat] + fe_vals(cs.instance_assignment@)
                + fe_vals(cs.witness_assignment@.take(j as int)),
        decreases nw - j,
    {
        fr_vec_push(&mut v, &cs.witness_assignment[j]);
        proof {
            assert(fe_vals(cs.witness_assignment@.take(j + 1 as int))
                =~= fe_vals(cs.witness_assignment@.take(j as int)).push(
                    cs.witness_assignment@[j as int].val()));
            assert(fr_vec_view(v) =~= seq![1nat] + fe_vals(cs.instance_assignment@)
                + fe_vals(cs.witness_assignment@.take(j + 1 as int)));
        }
        j = j + 1;
    }
    assert(cs.witness_assignment@.take(nw as int) =~= cs.witness_assignment@);
    v
}

/// The A matrix of the sum circuit: one row, coefficients one on the two
/// witness columns.
pub open spec fn sum_matrix_a() -> Seq<Seq<(nat, nat)>> {
    seq![seq![(1nat, 2nat), (1nat, 3nat)]]
}

/// The B matrix of the sum circuit: one row, coefficient one on the
/// constant column.
pub open spec fn sum_matrix_b() -> Seq<Seq<(nat, nat)>> {
    seq![seq![(1nat, 0nat)]]
}

/// The C matrix of the sum circuit: one row, coefficient one on the
/// public-input column.
pub open spec fn sum_matrix_c() -> Seq<Seq<(nat, nat)>> {
    seq![seq![(1nat, 1nat)]]
}

/// Whether proving-key bytes decode to a key whose query vectors fit
/// the sum circuit: one constant, one public input and two witnesses
/// give four entries in each query.
pub open spec fn sum_pk_fits(pk: Seq<u8>) -> bool {
    groth16_pk_query_lens(pk) == Some((4nat, 4nat, 4nat))
}

/// What proving the sum circuit returns: the prover's output on the sum
/// circuit's matrices with full assignment (1, c, a, b).
pub open spec fn sum_proof_of(pk: Seq<u8>, a: Fe, b: Fe, c: Fe, seed: u64)
    -> Option<Seq<u8>> {
    groth16_prove_of(pk, sum_matrix_a(), sum_matrix_b(), sum_matrix_c(), 2, 2, 1,
        seq![1nat, c.val(), a.val(), b.val()], seed)
}

/// Produce a proof for the circuit's public input from its witnesses:
/// the constraint system is rebuilt from the circuit, flattened into
/// matrices, and handed to the Groth16 prover with the proving-key bytes
/// and a randomness seed. Fails with `AssignmentMissing` exactly when a
/// value of the circuit is unbound, and with `KeyTopologyMismatch` when
/// the key bytes do not decode or their query vectors do not fit this
/// circuit's shape. A foreign key of the right shape is not detected
/// here: it yields a proof that the verifier then rejects.
pub fn prove(pk: &Vec<u8>, circuit: &Circuit, seed: u64) -> (r: Result<Vec<u8>, ZkError>)
    ensures
        (circuit.a is None || circuit.b is None || circuit.c is None)
            <==> crate::res_is_err(r, ZkError::AssignmentMissing),
        circuit.a is Some && circuit.b is Some && circuit.c is Some && !sum_pk_fits(pk@)
            ==> crate::res_is_err(r, ZkError::KeyTopologyMismatch),
        circuit.a is Some && circuit.b is Some && circuit.c is Some && sum_pk_fits(pk@)
            ==> match r {
                Ok(p) => sum_proof_of(pk@, circuit.a->0, circuit.b->0, circuit.c->0, seed)
                    == Some(p@),
                Err(e) => e == ZkError::KeyTopologyMismatch
                    && sum_proof_of(pk@, circuit.a->0, circuit.b->0, circuit.c->0, seed)
                        is None,
            },
{
    let mut cs = ConstraintSystem::new(SynthesisMode::Prove);
    match circuit.generate_constraints(&mut cs) {
        Ok(()) => {},
        Err(e) => {
            return Err(e);
        },
    }
    let fits = match groth16_pk_shape(pk) {
        Some(t) => t.0 == 4 && t.1 == 4 && t.2 == 4,
        None => false,
    };
    if !fits {
        return Err(ZkError::KeyTopologyMismatch);
    }
    let (ma, mb, mc) = build_matrices(&cs);
    let asg = build_assignment(&cs);
    proof {
        assert(lc_cols(cs.constraints@[0].a.terms@, 1nat)
            =~= seq![(1nat, 2nat), (1nat, 3nat)]);
        assert(lc_cols(cs.constraints@[0].b.terms@, 1nat) =~= seq![(1nat, 0nat)]);
        assert(lc_cols(cs.constraints@[0].c.terms@, 1nat) =~= seq![(1nat, 1nat)]);
        assert(fr_matrix_view(ma) =~= sum_matrix_a());
        assert(fr_matrix_view(mb) =~= sum_matrix_b());
        assert(fr_matrix_view(mc) =~= sum_matrix_c());
        assert(fr_vec_view(asg) =~= seq![1nat, circuit.c->0.val(), circuit.a->0.val(),
            circuit.b->0.val()]);
    }
    groth16_prove_raw(pk, &ma, &mb, &mc, 2, 2, 1, &asg, seed)
}

/// Check a proof against verifying-key bytes and the ordered public
/// inputs. Rejection is reported as `Ok(false)`; only inputs that are
/// structurally malformed fail: key bytes that do not decode (or an
/// input count that does not fit the key) as `KeyTopologyMismatch`, and
/// proof bytes that do not decode as `MalformedProof`.
pub fn verify(vk: &Vec<u8>, proof: &Vec<u8>, public_input: &Vec<Fe>)
    -> (r: Result<bool, ZkError>)
    ensures
        r is Ok <==> groth16_verdict(vk@, proof@, fe_vals(public_input@)) is Some,
        r matches Ok(b) ==> groth16_verdict(vk@, proof@, fe_vals(public_input@)) == Some(b),
        crate::res_is_err(r, ZkError::MalformedProof) <==> (groth16_vk_ok(vk@)
            && !groth16_proof_ok(proof@)),
        crate::res_is_err(r, ZkError::KeyTopologyMismatch) <==> (!groth16_vk_ok(vk@)
            || (groth16_proof_ok(proof@) && groth16_verdict(vk@, proof@,
                fe_vals(public_input@)) is None)),
{
    let mut xs = fr_vec_new();
    let n = public_input.len();
    let mut i: usize = 0;
    assert(fe_vals(public_input@.take(0)) =~= Seq::<nat>::empty());
    while i < n
        invariant
            n == public_input@.len(),
            0 <= i <= n,
            fr_vec_view(xs) == fe_vals(public_input@.take(i as int)),
        decreases n - i,
    {
        fr_vec_push(&mut xs, &public_input[i]);
        proof {
            assert(fe_vals(public_input@.take(i + 1 as int))
                =~= fe_vals(public_input@.take(i as int)).push(
                    public_input@[i as int].val()));
        }
        i = i + 1;
    }
    assert(public_input@.take(n as int) =~= public_input@);
    groth16_verify_raw(vk, proof, &xs)
}

} // verus!
