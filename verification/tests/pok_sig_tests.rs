#![allow(non_snake_case)]

use std::collections::{HashMap, HashSet};

use amcl_wrapper::field_elem::FieldElement;
use amcl_wrapper::group_elem::GroupElement;
use amcl_wrapper::group_elem_g1::G1;
use ps_sig::curve::{Scalar, SignatureGroup};
use ps_sig::errors::PSError;
use ps_sig::keys::{keygen, Params};
use ps_sig::pok_sig::{PoKOfSignature, PoKOfSignatureProof};
use ps_sig::signature::Signature;

fn rand_scalar() -> Scalar {
    Scalar::from_bytes(FieldElement::random().to_bytes()).unwrap()
}

fn rand_scalars(n: usize) -> Vec<Scalar> {
    let mut v = Vec::new();
    for _ in 0..n {
        v.push(rand_scalar());
    }
    v
}

fn hash_to_scalar(bytes: &[u8]) -> Scalar {
    Scalar::from_bytes(FieldElement::from_msg_hash(bytes).to_bytes()).unwrap()
}

#[test]
fn test_PoK_sig() {
    let count_msgs = 5;
    let params = Params::new(&"test".as_bytes().to_vec());
    let (sk, vk) = keygen(count_msgs, &params);

    let msgs = rand_scalars(count_msgs);
    let sig = Signature::new(&msgs, &sk, &params).unwrap();
    assert!(sig.verify(&msgs, &vk, &params).unwrap());

    let pok = PoKOfSignature::init(&sig, &vk, &params, &msgs, None, HashSet::new()).unwrap();

    let chal = pok.pok_vc.gen_challenge(pok.J.to_bytes());

    let proof = pok.gen_proof(&chal).unwrap();

    assert!(proof.verify(&vk, &params, HashMap::new(), &chal).unwrap());

    // PoK with supplied blindings.
    let blindings = rand_scalars(count_msgs);
    let pok_1 = PoKOfSignature::init(
        &sig,
        &vk,
        &params,
        &msgs,
        Some(&blindings),
        HashSet::new(),
    )
    .unwrap();
    let chal_1 = hash_to_scalar(&pok_1.to_bytes());
    let proof_1 = pok_1.gen_proof(&chal_1).unwrap();

    assert!(proof_1.verify(&vk, &params, HashMap::new(), &chal_1).unwrap());
}

#[test]
fn test_PoK_sig_reveal_messages() {
    let count_msgs = 10;
    let params = Params::new(&"test".as_bytes().to_vec());
    let (sk, vk) = keygen(count_msgs, &params);

    let msgs = rand_scalars(count_msgs);

    let sig = Signature::new(&msgs, &sk, &params).unwrap();
    assert!(sig.verify(&msgs, &vk, &params).unwrap());

    let mut revealed_msg_indices = HashSet::new();
    revealed_msg_indices.insert(2);
    revealed_msg_indices.insert(4);
    revealed_msg_indices.insert(9);

    let pok = PoKOfSignature::init(
        &sig,
        &vk,
        &params,
        &msgs,
        None,
        revealed_msg_indices.clone(),
    )
    .unwrap();

    let chal = pok.pok_vc.gen_challenge(pok.J.to_bytes());

    let proof = pok.gen_proof(&chal).unwrap();

    let mut revealed_msgs = HashMap::new();
    for i in &revealed_msg_indices {
        revealed_msgs.insert(*i, msgs[*i].clone());
    }
    assert!(proof.verify(&vk, &params, revealed_msgs.clone(), &chal).unwrap());

    // Revealing a wrong message must fail.
    let mut revealed_msgs_1 = revealed_msgs.clone();
    revealed_msgs_1.insert(2, rand_scalar());
    assert!(!proof.verify(&vk, &params, revealed_msgs_1.clone(), &chal).unwrap());
}

#[test]
fn test_PoK_multiple_sigs() {
    // Prove knowledge of multiple signatures together, with one challenge.
    let count_msgs = 5;
    let params = Params::new(&"test".as_bytes().to_vec());
    let (sk, vk) = keygen(count_msgs, &params);

    let msgs_1 = rand_scalars(count_msgs);
    let sig_1 = Signature::new(&msgs_1, &sk, &params).unwrap();
    assert!(sig_1.verify(&msgs_1, &vk, &params).unwrap());

    let msgs_2 = rand_scalars(count_msgs);
    let sig_2 = Signature::new(&msgs_2, &sk, &params).unwrap();
    assert!(sig_2.verify(&msgs_2, &vk, &params).unwrap());

    let pok_1 = PoKOfSignature::init(&sig_1, &vk, &params, &msgs_1, None, HashSet::new()).unwrap();
    let pok_2 = PoKOfSignature::init(&sig_2, &vk, &params, &msgs_2, None, HashSet::new()).unwrap();

    let mut chal_bytes = vec![];
    chal_bytes.append(&mut pok_1.to_bytes());
    chal_bytes.append(&mut pok_2.to_bytes());

    let chal = hash_to_scalar(&chal_bytes);

    let proof_1 = pok_1.gen_proof(&chal).unwrap();
    let proof_2 = pok_2.gen_proof(&chal).unwrap();

    assert!(proof_1.verify(&vk, &params, HashMap::new(), &chal).unwrap());
    assert!(proof_2.verify(&vk, &params, HashMap::new(), &chal).unwrap());
}

#[test]
fn test_PoK_multiple_sigs_with_same_msg() {
    // Prove knowledge of two signatures and the equality of a specific
    // message under both: the 2nd message of the 1st signature equals the
    // 5th message of the 2nd, shown without revealing it.
    let count_msgs = 5;
    let params = Params::new(&"test".as_bytes().to_vec());
    let (sk, vk) = keygen(count_msgs, &params);

    let same_msg = rand_scalar();
    let mut msgs_1 = rand_scalars(count_msgs - 1);
    msgs_1.insert(1, same_msg.clone());
    let sig_1 = Signature::new(&msgs_1, &sk, &params).unwrap();
    assert!(sig_1.verify(&msgs_1, &vk, &params).unwrap());

    let mut msgs_2 = rand_scalars(count_msgs - 1);
    msgs_2.insert(4, same_msg.clone());
    let sig_2 = Signature::new(&msgs_2, &sk, &params).unwrap();
    assert!(sig_2.verify(&msgs_2, &vk, &params).unwrap());

    // A particular message is the same.
    assert_eq!(msgs_1[1], msgs_2[4]);

    let same_blinding = rand_scalar();

    let mut blindings_1 = rand_scalars(count_msgs - 1);
    blindings_1.insert(1, same_blinding.clone());

    let mut blindings_2 = rand_scalars(count_msgs - 1);
    blindings_2.insert(4, same_blinding.clone());

    // The blinding for the shared message is kept the same.
    assert_eq!(blindings_1[1], blindings_2[4]);

    let pok_1 = PoKOfSignature::init(
        &sig_1,
        &vk,
        &params,
        &msgs_1,
        Some(&blindings_1),
        HashSet::new(),
    )
    .unwrap();
    let pok_2 = PoKOfSignature::init(
        &sig_2,
        &vk,
        &params,
        &msgs_2,
        Some(&blindings_2),
        HashSet::new(),
    )
    .unwrap();

    let mut chal_bytes = vec![];
    chal_bytes.append(&mut pok_1.to_bytes());
    chal_bytes.append(&mut pok_2.to_bytes());

    let chal = hash_to_scalar(&chal_bytes);

    let proof_1 = pok_1.gen_proof(&chal).unwrap();
    let proof_2 = pok_2.gen_proof(&chal).unwrap();

    // The responses for the shared message agree; index 0 is reserved for
    // the aggregate exponent `t`, so the slots are shifted by one.
    assert_eq!(
        proof_1.proof_vc.responses[1 + 1],
        proof_2.proof_vc.responses[1 + 4]
    );

    // The named accessor hides the shift.
    let r1 = proof_1.response_for_message(1, &HashSet::new()).unwrap();
    let r2 = proof_2.response_for_message(4, &HashSet::new()).unwrap();
    assert_eq!(r1, r2);

    assert!(proof_1.verify(&vk, &params, HashMap::new(), &chal).unwrap());
    assert!(proof_2.verify(&vk, &params, HashMap::new(), &chal).unwrap());
}

#[test]
fn test_PoK_sig_identity_injection_rejected() {
    let count_msgs = 5;
    let params = Params::new(&"test".as_bytes().to_vec());
    let (sk, vk) = keygen(count_msgs, &params);
    let msgs = rand_scalars(count_msgs);
    let sig = Signature::new(&msgs, &sk, &params).unwrap();

    let pok = PoKOfSignature::init(&sig, &vk, &params, &msgs, None, HashSet::new()).unwrap();
    let chal = pok.pok_vc.gen_challenge(pok.J.to_bytes());
    let proof = pok.gen_proof(&chal).unwrap();
    assert!(proof.verify(&vk, &params, HashMap::new(), &chal).unwrap());

    let identity = SignatureGroup::from_bytes(G1::identity().to_bytes(false)).unwrap();

    let bad_1 = PoKOfSignatureProof {
        sig: Signature { sigma_1: identity.dup(), sigma_2: proof.sig.sigma_2.dup() },
        J: proof.J.dup(),
        proof_vc: proof.proof_vc.clone(),
    };
    assert!(!bad_1.verify(&vk, &params, HashMap::new(), &chal).unwrap());

    let bad_2 = PoKOfSignatureProof {
        sig: Signature { sigma_1: proof.sig.sigma_1.dup(), sigma_2: identity.dup() },
        J: proof.J.dup(),
        proof_vc: proof.proof_vc.clone(),
    };
    assert!(!bad_2.verify(&vk, &params, HashMap::new(), &chal).unwrap());
}

#[test]
fn test_PoK_sig_randomization_differs() {
    // Two presentations of the same signature are structurally unlinkable:
    // fresh randomness gives distinct sigma', J and commitment.
    let count_msgs = 5;
    let params = Params::new(&"test".as_bytes().to_vec());
    let (sk, vk) = keygen(count_msgs, &params);
    let msgs = rand_scalars(count_msgs);
    let sig = Signature::new(&msgs, &sk, &params).unwrap();

    let pok_a = PoKOfSignature::init(&sig, &vk, &params, &msgs, None, HashSet::new()).unwrap();
    let pok_b = PoKOfSignature::init(&sig, &vk, &params, &msgs, None, HashSet::new()).unwrap();

    assert_ne!(pok_a.sig.sigma_1.to_bytes(), pok_b.sig.sigma_1.to_bytes());
    assert_ne!(pok_a.sig.sigma_2.to_bytes(), pok_b.sig.sigma_2.to_bytes());
    assert_ne!(pok_a.J.to_bytes(), pok_b.J.to_bytes());
}

#[test]
fn test_PoK_sig_error_cases() {
    let count_msgs = 5;
    let params = Params::new(&"test".as_bytes().to_vec());
    let (sk, vk) = keygen(count_msgs, &params);
    let msgs = rand_scalars(count_msgs);
    let sig = Signature::new(&msgs, &sk, &params).unwrap();

    // A revealed index beyond the message count.
    let mut bad_indices = HashSet::new();
    bad_indices.insert(count_msgs);
    match PoKOfSignature::init(&sig, &vk, &params, &msgs, None, bad_indices) {
        Err(PSError::GeneralError { msg }) => {
            assert_eq!(msg, "revealed message index beyond the message count");
        },
        other => panic!("expected GeneralError, got {:?}", other),
    }

    // A message count the key does not support.
    let short = rand_scalars(count_msgs - 1);
    match PoKOfSignature::init(&sig, &vk, &params, &short, None, HashSet::new()) {
        Err(PSError::UnsupportedNoOfMessages { expected, given }) => {
            assert_eq!(expected, count_msgs);
            assert_eq!(given, count_msgs - 1);
        },
        other => panic!("expected UnsupportedNoOfMessages, got {:?}", other),
    }

    // A blindings count that does not match the hidden message count.
    let mut revealed = HashSet::new();
    revealed.insert(1);
    let blindings = rand_scalars(count_msgs);
    match PoKOfSignature::init(&sig, &vk, &params, &msgs, Some(&blindings), revealed) {
        Err(PSError::GeneralError { msg }) => {
            assert_eq!(msg, "blindings count differs from the hidden message count");
        },
        other => panic!("expected GeneralError, got {:?}", other),
    }
}

#[test]
fn test_response_for_message_slots() {
    let count_msgs = 10;
    let params = Params::new(&"test".as_bytes().to_vec());
    let (sk, vk) = keygen(count_msgs, &params);
    let msgs = rand_scalars(count_msgs);
    let sig = Signature::new(&msgs, &sk, &params).unwrap();

    let mut revealed = HashSet::new();
    revealed.insert(2);
    revealed.insert(4);
    revealed.insert(9);

    let pok = PoKOfSignature::init(&sig, &vk, &params, &msgs, None, revealed.clone()).unwrap();
    let chal = pok.pok_vc.gen_challenge(pok.J.to_bytes());
    let proof = pok.gen_proof(&chal).unwrap();

    // Hidden indices ascending: 0 1 3 5 6 7 8; message 3 sits at hidden
    // rank 2, so its response is at slot 3 (slot 0 holds `t`).
    let r = proof.response_for_message(3, &revealed).unwrap();
    assert_eq!(r, proof.proof_vc.responses[3]);

    let r0 = proof.response_for_message(0, &revealed).unwrap();
    assert_eq!(r0, proof.proof_vc.responses[1]);

    match proof.response_for_message(2, &revealed) {
        Err(PSError::GeneralError { msg }) => {
            assert_eq!(msg, "message index is revealed, so no response stands for it");
        },
        other => panic!("expected GeneralError, got {:?}", other),
    }

    match proof.response_for_message(42, &revealed) {
        Err(PSError::GeneralError { msg }) => {
            assert_eq!(msg, "message index beyond the proof's response slots");
        },
        other => panic!("expected GeneralError, got {:?}", other),
    }
}

#[test]
fn test_proof_serialization_shape() {
    let count_msgs = 3;
    let params = Params::new(&"test".as_bytes().to_vec());
    let (sk, vk) = keygen(count_msgs, &params);
    let msgs = rand_scalars(count_msgs);
    let sig = Signature::new(&msgs, &sk, &params).unwrap();
    let pok = PoKOfSignature::init(&sig, &vk, &params, &msgs, None, HashSet::new()).unwrap();
    let chal = pok.pok_vc.gen_challenge(pok.J.to_bytes());
    let proof = pok.gen_proof(&chal).unwrap();

    let bytes = proof.to_bytes();
    let mut expected = proof.sig.to_bytes();
    expected.extend_from_slice(&proof.J.to_bytes());
    expected.extend_from_slice(&proof.proof_vc.to_bytes());
    assert_eq!(bytes, expected);
    // sigma'_1, sigma'_2 (97 each), J and T (193 each), 4 responses (48 each).
    assert_eq!(bytes.len(), 2 * 97 + 2 * 193 + (count_msgs + 1) * 48);
}

#[test]
fn test_gen_challenge_matches_hash() {
    let count_msgs = 3;
    let params = Params::new(&"test".as_bytes().to_vec());
    let (sk, vk) = keygen(count_msgs, &params);
    let msgs = rand_scalars(count_msgs);
    let sig = Signature::new(&msgs, &sk, &params).unwrap();
    let pok = PoKOfSignature::init(&sig, &vk, &params, &msgs, None, HashSet::new()).unwrap();

    let chal = pok.pok_vc.gen_challenge(pok.J.to_bytes());
    let mut input = pok.pok_vc.to_bytes();
    input.extend_from_slice(&pok.J.to_bytes());
    let expected = hash_to_scalar(&input);
    assert_eq!(chal, expected);
}
