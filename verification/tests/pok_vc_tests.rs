#![allow(non_snake_case)]

use amcl_wrapper::field_elem::FieldElement;
use amcl_wrapper::group_elem::GroupElement;
use amcl_wrapper::group_elem_g1::{G1, G1Vector};
use amcl_wrapper::group_elem_g2::{G2, G2Vector};
use ps_sig::curve::{OtherGroup, Scalar, SignatureGroup};
use ps_sig::errors::PSError;
use ps_sig::pok_vc::{ProverCommittingOtherGroup, ProverCommittingSignatureGroup};

fn rand_scalar() -> Scalar {
    Scalar::from_bytes(FieldElement::random().to_bytes()).unwrap()
}

fn scalar_to_fe(s: &Scalar) -> FieldElement {
    FieldElement::from_bytes(&s.to_bytes()).unwrap()
}

#[test]
fn test_PoK_VC_SignatureGroup() {
    let n = 5;
    let mut gens_amcl: Vec<G1> = Vec::new();
    let mut gens: Vec<SignatureGroup> = Vec::new();
    let mut secrets: Vec<Scalar> = Vec::new();
    let mut committing = ProverCommittingSignatureGroup::new();
    for _ in 0..n - 1 {
        let g = G1::random();
        let lg = SignatureGroup::from_bytes(g.to_bytes(false)).unwrap();
        committing.commit(&lg, None);
        gens_amcl.push(g);
        gens.push(lg);
        secrets.push(rand_scalar());
    }
    // Supply the last blinding explicitly.
    let g = G1::random();
    let lg = SignatureGroup::from_bytes(g.to_bytes(false)).unwrap();
    let blinding = rand_scalar();
    let idx = committing.commit(&lg, Some(&blinding));
    assert_eq!(idx, n - 1);
    gens_amcl.push(g);
    gens.push(lg);
    secrets.push(rand_scalar());

    let committed = committing.finish();
    let challenge = committed.gen_challenge(committed.to_bytes());

    // The value whose representation knowledge is proved.
    let fes: Vec<FieldElement> = secrets.iter().map(scalar_to_fe).collect();
    let commitment_amcl = G1Vector::multi_scalar_mul_const_time_without_precomputation(
        gens_amcl.iter(),
        fes.iter(),
    )
    .unwrap();
    let commitment = SignatureGroup::from_bytes(commitment_amcl.to_bytes(false)).unwrap();

    let proof = committed.gen_proof(&challenge, &secrets).unwrap();
    assert!(proof.verify(&gens, &commitment, &challenge).unwrap());

    // A wrong claimed value must fail.
    let wrong = SignatureGroup::from_bytes(G1::random().to_bytes(false)).unwrap();
    assert!(!proof.verify(&gens, &wrong, &challenge).unwrap());

    // A wrong challenge must fail.
    let wrong_chal = rand_scalar();
    assert!(!proof.verify(&gens, &commitment, &wrong_chal).unwrap());

    // A bases/responses count mismatch is a structural error.
    let fewer: Vec<SignatureGroup> = gens.iter().take(n - 1).map(|g| g.dup()).collect();
    match proof.verify(&fewer, &commitment, &challenge) {
        Err(PSError::UnequalNoOfBasesExponents { bases, exponents }) => {
            assert_eq!(bases, n - 1);
            assert_eq!(exponents, n);
        },
        other => panic!("expected UnequalNoOfBasesExponents, got {:?}", other),
    }
}

#[test]
fn test_PoK_VC_OtherGroup() {
    let n = 5;
    let mut gens_amcl: Vec<G2> = Vec::new();
    let mut gens: Vec<OtherGroup> = Vec::new();
    let mut secrets: Vec<Scalar> = Vec::new();
    let mut committing = ProverCommittingOtherGroup::new();
    for _ in 0..n - 1 {
        let g = G2::random();
        let lg = OtherGroup::from_bytes(g.to_bytes(false)).unwrap();
        committing.commit(&lg, None);
        gens_amcl.push(g);
        gens.push(lg);
        secrets.push(rand_scalar());
    }
    let g = G2::random();
    let lg = OtherGroup::from_bytes(g.to_bytes(false)).unwrap();
    let blinding = rand_scalar();
    let idx = committing.commit(&lg, Some(&blinding));
    assert_eq!(idx, n - 1);
    gens_amcl.push(g);
    gens.push(lg);
    secrets.push(rand_scalar());

    let committed = committing.finish();
    let challenge = committed.gen_challenge(committed.to_bytes());

    let fes: Vec<FieldElement> = secrets.iter().map(scalar_to_fe).collect();
    let commitment_amcl = G2Vector::multi_scalar_mul_const_time_without_precomputation(
        gens_amcl.iter(),
        fes.iter(),
    )
    .unwrap();
    let commitment = OtherGroup::from_bytes(commitment_amcl.to_bytes(false)).unwrap();

    let proof = committed.gen_proof(&challenge, &secrets).unwrap();
    assert!(proof.verify(&gens, &commitment, &challenge).unwrap());

    let wrong = OtherGroup::from_bytes(G2::random().to_bytes(false)).unwrap();
    assert!(!proof.verify(&gens, &wrong, &challenge).unwrap());

    let wrong_chal = rand_scalar();
    assert!(!proof.verify(&gens, &commitment, &wrong_chal).unwrap());
}

#[test]
fn test_PoK_VC_gen_proof_count_mismatch() {
    let n = 3;
    let mut committing = ProverCommittingOtherGroup::new();
    for _ in 0..n {
        let lg = OtherGroup::from_bytes(G2::random().to_bytes(false)).unwrap();
        committing.commit(&lg, None);
    }
    let committed = committing.finish();
    let challenge = rand_scalar();
    let secrets: Vec<Scalar> = (0..n + 1).map(|_| rand_scalar()).collect();
    match committed.gen_proof(&challenge, &secrets) {
        Err(PSError::UnequalNoOfBasesExponents { bases, exponents }) => {
            assert_eq!(bases, n);
            assert_eq!(exponents, n + 1);
        },
        other => panic!("expected UnequalNoOfBasesExponents, got {:?}", other),
    }
}
