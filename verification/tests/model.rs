//! The field-element boundary and the constraint-system model on their own:
//! parsing, field arithmetic, circuit synthesis and the satisfaction check.

use zk_pipeline::circuit::Circuit;
use zk_pipeline::field::{fe_add, fe_from_u64, fe_mul, parse_field_element};
use zk_pipeline::r1cs::{ConstraintSystem, SynthesisMode};
use zk_pipeline::ZkError;

const ORDER: &str = "21888242871839275222246405745257275088548364400416034343698204186575808495617";
const ORDER_MINUS_ONE: &str =
    "21888242871839275222246405745257275088548364400416034343698204186575808495616";
const ORDER_PLUS_ONE: &str =
    "21888242871839275222246405745257275088548364400416034343698204186575808495618";

#[test]
fn parse_plain_decimal() {
    assert_eq!(parse_field_element("12"), Ok(fe_from_u64(12)));
    assert_eq!(parse_field_element("0"), Ok(fe_from_u64(0)));
    assert_eq!(
        parse_field_element("18446744073709551615"),
        Ok(fe_from_u64(u64::MAX))
    );
}

#[test]
fn parse_rejects_malformed() {
    assert_eq!(parse_field_element("x"), Err(ZkError::MalformedInput));
    assert_eq!(parse_field_element(""), Err(ZkError::MalformedInput));
    assert_eq!(parse_field_element("007"), Err(ZkError::MalformedInput));
    assert_eq!(parse_field_element("12a"), Err(ZkError::MalformedInput));
    assert_eq!(parse_field_element("-3"), Err(ZkError::MalformedInput));
    assert_eq!(parse_field_element("1 2"), Err(ZkError::MalformedInput));
}

#[test]
fn parse_reduces_by_the_order() {
    assert_eq!(parse_field_element(ORDER), Ok(fe_from_u64(0)));
    assert_eq!(parse_field_element(ORDER_PLUS_ONE), Ok(fe_from_u64(1)));
}

#[test]
fn field_addition_and_multiplication() {
    let three = fe_from_u64(3);
    let four = fe_from_u64(4);
    assert_eq!(fe_add(&three, &four), fe_from_u64(7));
    assert_eq!(fe_mul(&three, &four), fe_from_u64(12));
    let top = parse_field_element(ORDER_MINUS_ONE).unwrap();
    assert_eq!(fe_add(&top, &fe_from_u64(1)), fe_from_u64(0));
    assert_eq!(fe_add(&top, &fe_from_u64(3)), fe_from_u64(2));
}

#[test]
fn synthesis_builds_the_sum_topology() {
    let mut cs = ConstraintSystem::new(SynthesisMode::Setup);
    let topology = Circuit {
        a: None,
        b: None,
        c: None,
    };
    assert_eq!(topology.generate_constraints(&mut cs), Ok(()));
    assert_eq!(cs.num_witness, 2);
    assert_eq!(cs.num_input, 1);
    assert_eq!(cs.constraints.len(), 1);
    assert_eq!(cs.witness_assignment.len(), 0);
    assert_eq!(cs.instance_assignment.len(), 0);
}

#[test]
fn satisfied_when_the_sum_holds() {
    let mut cs = ConstraintSystem::new(SynthesisMode::Prove);
    let assigned = Circuit {
        a: Some(fe_from_u64(3)),
        b: Some(fe_from_u64(4)),
        c: Some(fe_from_u64(7)),
    };
    assert_eq!(assigned.generate_constraints(&mut cs), Ok(()));
    assert!(cs.is_satisfied());
}

#[test]
fn unsatisfied_when_the_sum_fails() {
    let mut cs = ConstraintSystem::new(SynthesisMode::Prove);
    let assigned = Circuit {
        a: Some(fe_from_u64(3)),
        b: Some(fe_from_u64(4)),
        c: Some(fe_from_u64(8)),
    };
    assert_eq!(assigned.generate_constraints(&mut cs), Ok(()));
    assert!(!cs.is_satisfied());
}

#[test]
fn synthesis_reports_the_missing_value() {
    let mut cs = ConstraintSystem::new(SynthesisMode::Prove);
    let partial = Circuit {
        a: Some(fe_from_u64(3)),
        b: None,
        c: Some(fe_from_u64(7)),
    };
    assert_eq!(
        partial.generate_constraints(&mut cs),
        Err(ZkError::AssignmentMissing)
    );
}
