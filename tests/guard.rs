use axon_client::client::ObjectProof;
use axon_client::error::VerifyError;
use axon_client::guard::{check_create, check_update, classify, same_id, ClientCell, GuardError, Shape};
use axon_client::validator::RawValidator;

fn raw(seed: u8) -> RawValidator {
    RawValidator {
        bls_pub_key: vec![seed; 48],
        pub_key: vec![],
        address: vec![seed; 20],
        propose_weight: vec![1, 0, 0, 0],
        vote_weight: vec![1, 0, 0, 0],
    }
}

fn cell(id: u8, validators: Vec<RawValidator>) -> ClientCell {
    ClientCell { id: [id; 32], validators }
}

fn witness() -> ObjectProof {
    ObjectProof {
        block: vec![0xff],
        receipt: vec![],
        receipt_proof: vec![],
        axon_proof: vec![0xff],
        state_root: [0u8; 32],
    }
}

#[test]
fn identifiers_compare_by_bytes() {
    let mut b = [2u8; 32];
    assert!(same_id(&[2u8; 32], &b));
    b[31] = 3;
    assert!(!same_id(&[2u8; 32], &b));
}

#[test]
fn create_accepts_fresh_identifier() {
    assert_eq!(check_create(&vec![[1u8; 32]], &cell(2, vec![raw(1)]), true), Ok(()));
}

#[test]
fn create_twice_under_one_identifier_collides() {
    let first = cell(2, vec![raw(1)]);
    let mut existing = vec![[1u8; 32]];
    assert_eq!(check_create(&existing, &first, true), Ok(()));
    existing.push(first.id);
    let second = cell(2, vec![raw(3)]);
    assert_eq!(check_create(&existing, &second, true), Err(GuardError::IdCollision));
}

#[test]
fn create_refuses_unreadable_records() {
    let mut bad = raw(1);
    bad.propose_weight = vec![1];
    assert_eq!(check_create(&vec![], &cell(2, vec![bad]), true), Err(GuardError::Metadata));
}

#[test]
fn create_refuses_failed_bootstrap() {
    assert_eq!(check_create(&vec![], &cell(2, vec![raw(1)]), false), Err(GuardError::BootstrapRejected));
}

#[test]
fn update_with_other_identifier_is_refused() {
    let old = cell(1, vec![]);
    let new = cell(2, vec![]);
    assert_eq!(check_update(&old, &new, &Some(witness()), true), Err(GuardError::IdMismatch));
}

#[test]
fn update_without_proof_is_refused() {
    let old = cell(1, vec![]);
    let new = cell(1, vec![]);
    assert_eq!(check_update(&old, &new, &None, true), Err(GuardError::MissingProof));
}

#[test]
fn update_with_unreadable_old_records_is_refused() {
    let mut bad = raw(1);
    bad.address = vec![1u8; 21];
    let old = cell(1, vec![bad]);
    let new = cell(1, vec![raw(1)]);
    assert_eq!(check_update(&old, &new, &Some(witness()), true), Err(GuardError::Metadata));
}

#[test]
fn update_passes_on_proof_refusal() {
    let old = cell(1, vec![raw(1), raw(2)]);
    let new = cell(1, vec![raw(3)]);
    assert_eq!(
        check_update(&old, &new, &Some(witness()), true),
        Err(GuardError::Verify(VerifyError::DecodeFailure))
    );
}

#[test]
fn update_from_empty_set_is_refused() {
    let old = cell(1, vec![]);
    let new = cell(1, vec![raw(3)]);
    assert_eq!(
        check_update(&old, &new, &Some(witness()), true),
        Err(GuardError::Verify(VerifyError::InvalidReceiptProof))
    );
}

#[test]
fn fresh_output_is_a_create() {
    assert_eq!(classify(&vec![[9u8; 32]], &vec![[1u8; 32], [9u8; 32]], &[1u8; 32]), Shape::Create);
}

#[test]
fn one_in_one_out_is_an_update() {
    assert_eq!(classify(&vec![[1u8; 32]], &vec![[1u8; 32]], &[1u8; 32]), Shape::Update);
}

#[test]
fn fork_is_rejected() {
    assert_eq!(classify(&vec![[1u8; 32]], &vec![[1u8; 32], [1u8; 32]], &[1u8; 32]), Shape::Reject);
}

#[test]
fn deletion_is_rejected() {
    assert_eq!(classify(&vec![[1u8; 32]], &vec![[2u8; 32]], &[1u8; 32]), Shape::Reject);
}

#[test]
fn two_consumed_cells_are_rejected() {
    assert_eq!(classify(&vec![[1u8; 32], [1u8; 32]], &vec![[1u8; 32]], &[1u8; 32]), Shape::Reject);
}
