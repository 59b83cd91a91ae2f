//! Tests driving the instance commitment computer against the real
//! commitment scheme.

use group::Curve;
use halo2_playground::CommitError;
use halo2_playground::CommitmentEngine;
use halo2_proofs::poly::commitment::Blind;
use halo2_proofs::poly::commitment::Params;
use halo2_proofs::poly::EvaluationDomain;
use pasta_curves::EqAffine;
use pasta_curves::Fp;

// n = 8 rows, one instance column, one blinding factor: 8 - (1 + 1) = 6
// usable rows.
fn engine() -> CommitmentEngine {
    CommitmentEngine::new(3, 1, 1)
}

#[test]
fn reports_shape() {
    let e = engine();
    assert_eq!(e.size(), 8);
    assert_eq!(e.num_columns(), 1);
    assert_eq!(e.num_blinding_factors(), 1);
    assert_eq!(e.usable_rows(), 6);
}

#[test]
fn commits_one_vector() {
    let e = engine();
    let instances = vec![vec![vec![Fp::from(3), Fp::from(5)]]];
    let out = e.commit_instances(&instances).expect("valid instances");
    assert_eq!(out.len(), 1);
    assert_eq!(out[0].len(), 1);
}

#[test]
fn rejects_oversized_vector() {
    let e = engine();
    let long = vec![Fp::from(1); 7];
    let instances = vec![vec![long]];
    assert_eq!(e.commit_instances(&instances), Err(CommitError::InstanceTooLarge));
}

#[test]
fn accepts_vector_at_capacity() {
    let e = engine();
    let full = vec![Fp::from(9); 6];
    let out = e.commit_instances(&vec![vec![full]]).expect("fits exactly");
    assert_eq!(out.len(), 1);
    assert_eq!(out[0].len(), 1);
}

#[test]
fn rejects_extra_column() {
    let e = engine();
    let instances = vec![vec![vec![Fp::from(3)], vec![Fp::from(5)]]];
    assert_eq!(e.commit_instances(&instances), Err(CommitError::InvalidInstances));
}

#[test]
fn rejects_missing_column() {
    let e = engine();
    let instances: Vec<Vec<Vec<Fp>>> = vec![vec![]];
    assert_eq!(e.commit_instances(&instances), Err(CommitError::InvalidInstances));
}

#[test]
fn shape_error_wins_over_size_error() {
    let e = engine();
    let long = vec![Fp::from(1); 7];
    let instances = vec![vec![long, vec![Fp::from(2)]]];
    assert_eq!(e.commit_instances(&instances), Err(CommitError::InvalidInstances));
}

#[test]
fn empty_batch_commits_to_nothing() {
    let e = engine();
    let out = e.commit_instances(&Vec::new()).expect("empty batch is valid");
    assert!(out.is_empty());
}

#[test]
fn preserves_order_over_sets() {
    let e = engine();
    let a = vec![Fp::from(1)];
    let b = vec![Fp::from(2)];
    let instances = vec![vec![a.clone()], vec![b.clone()]];
    let out = e.commit_instances(&instances).expect("valid instances");
    assert_eq!(out.len(), 2);
    assert_eq!(out[0][0], e.commit_column(&a));
    assert_eq!(out[1][0], e.commit_column(&b));
    assert_ne!(out[0][0], out[1][0]);
}

#[test]
fn deterministic_across_engines() {
    let e1 = engine();
    let e2 = engine();
    let instances = vec![vec![vec![Fp::from(3), Fp::from(5)]]];
    let out1 = e1.commit_instances(&instances).expect("valid instances");
    let out2 = e2.commit_instances(&instances).expect("valid instances");
    assert_eq!(out1, out2);
}

#[test]
fn padding_is_explicit_zero_extension() {
    let e = engine();
    let short = vec![Fp::from(3), Fp::from(5)];
    let mut padded = short.clone();
    padded.resize(8, Fp::zero());
    assert_eq!(e.commit_column(&short), e.commit_column(&padded));
}

#[test]
fn empty_vector_commits_like_all_zeros() {
    let e = engine();
    let zeros = vec![Fp::zero(); 8];
    assert_eq!(e.commit_column(&Vec::new()), e.commit_column(&zeros));
}

#[test]
fn matches_direct_commitment() {
    let e = engine();
    let column = vec![Fp::from(3), Fp::from(5)];
    let ours = e.commit_column(&column);

    let params = Params::<EqAffine>::new(3);
    let domain = EvaluationDomain::<Fp>::new(1, 3);
    let mut padded = column;
    padded.resize(8, Fp::zero());
    let direct: EqAffine = params
        .commit_lagrange(&domain.lagrange_from_vec(padded), Blind::default())
        .to_affine();
    assert_eq!(ours, direct);
}
