use axon_client::client::{AxonClient, ObjectProof};
use axon_client::consensus::{aggregate_proof, receipts_root};
use axon_client::error::{Error, VerifyError};
use axon_client::quorum::{address_less, address_rank, check_quorum, is_signer};
use axon_client::validator::{u32_from_le, validator_from_raw, validators_from_raw, RawValidator, Validator};
use axon_tools::types::{AxonBlock, AxonHeader, Bloom, Proof, H160, H256, H64, U256};

fn raw(seed: u8, weight: u32) -> RawValidator {
    RawValidator {
        bls_pub_key: vec![seed; 48],
        pub_key: vec![seed; 33],
        address: vec![seed; 20],
        propose_weight: 1u32.to_le_bytes().to_vec(),
        vote_weight: weight.to_le_bytes().to_vec(),
    }
}

fn validators(n: u8) -> Vec<Validator> {
    (0..n).map(|i| validator_from_raw(&raw(i + 1, 1)).unwrap()).collect()
}

fn consensus_proof(bitmap: Vec<u8>) -> Proof {
    Proof {
        number: 5,
        round: 1,
        block_hash: H256([9u8; 32]),
        signature: vec![3u8; 96].into(),
        bitmap: bitmap.into(),
    }
}

fn encoded_block(receipts_root: [u8; 32]) -> Vec<u8> {
    let header = AxonHeader {
        prev_hash: H256::zero(),
        proposer: H160::zero(),
        state_root: H256::zero(),
        transactions_root: H256::zero(),
        signed_txs_hash: H256::zero(),
        receipts_root: H256(receipts_root),
        log_bloom: Bloom::zero(),
        difficulty: U256::zero(),
        timestamp: 1,
        number: 5,
        gas_used: U256::zero(),
        gas_limit: U256::zero(),
        extra_data: Vec::<u8>::new().into(),
        mixed_hash: None,
        nonce: H64::zero(),
        base_fee_per_gas: U256::zero(),
        proof: consensus_proof(vec![]),
        call_system_script_count: 0,
        chain_id: 7,
    };
    let block = AxonBlock { header, tx_hashes: vec![] };
    rlp::encode(&block).to_vec()
}

fn object_proof(bitmap: Vec<u8>) -> ObjectProof {
    ObjectProof {
        block: encoded_block([7u8; 32]),
        receipt: vec![1, 2, 3],
        receipt_proof: vec![4, 5, 6],
        axon_proof: rlp::encode(&consensus_proof(bitmap)).to_vec(),
        state_root: [0u8; 32],
    }
}

fn client(n: u8) -> AxonClient {
    AxonClient { id: [1u8; 32], validators: validators(n), bootstrap: false }
}

#[test]
fn le_bytes_read_low_byte_first() {
    assert_eq!(u32_from_le(&vec![1, 2, 3, 4]), 0x0403_0201);
    assert_eq!(u32_from_le(&vec![0xff, 0xff, 0xff, 0xff]), u32::MAX);
}

#[test]
fn record_with_short_address_is_refused() {
    let mut r = raw(1, 1);
    r.address = vec![1u8; 19];
    assert_eq!(validator_from_raw(&r), Err(Error::MetadataSerde));
}

#[test]
fn record_with_short_weight_is_refused() {
    let mut r = raw(1, 1);
    r.vote_weight = vec![1u8, 0, 0];
    assert_eq!(validator_from_raw(&r), Err(Error::MetadataSerde));
}

#[test]
fn record_reads_all_fields() {
    let v = validator_from_raw(&raw(4, 0x0102_0304)).unwrap();
    assert_eq!(v.bls_pub_key, vec![4u8; 48]);
    assert_eq!(v.pub_key, vec![4u8; 33]);
    assert_eq!(v.address, [4u8; 20]);
    assert_eq!(v.propose_weight, 1);
    assert_eq!(v.vote_weight, 0x0102_0304);
}

#[test]
fn records_keep_their_order() {
    let vs = validators_from_raw(&vec![raw(3, 1), raw(1, 2), raw(2, 3)]).unwrap();
    let addresses: Vec<u8> = vs.iter().map(|v| v.address[0]).collect();
    assert_eq!(addresses, vec![3, 1, 2]);
    assert_eq!(vs[2].vote_weight, 3);
}

#[test]
fn new_client_keeps_id_and_validators() {
    let c = AxonClient::new([5u8; 32], &vec![raw(1, 1), raw(2, 1)]).unwrap();
    assert_eq!(c.client_id(), &[5u8; 32]);
    assert_eq!(c.validators.len(), 2);
    assert_eq!(c.validators[1].address, [2u8; 20]);
}

#[test]
fn new_client_refuses_bad_metadata() {
    let mut bad = raw(2, 1);
    bad.address = vec![];
    assert_eq!(AxonClient::new([5u8; 32], &vec![raw(1, 1), bad]), Err(Error::MetadataSerde));
}

#[test]
fn bitmap_bits_go_most_significant_first() {
    let bitmap = vec![0b1000_0001u8, 0b0100_0000];
    assert!(is_signer(&bitmap, 0));
    assert!(!is_signer(&bitmap, 1));
    assert!(is_signer(&bitmap, 7));
    assert!(is_signer(&bitmap, 9));
    assert!(!is_signer(&bitmap, 16));
}

#[test]
fn two_thirds_of_weight_is_a_quorum() {
    let vs = validators(6);
    assert!(check_quorum(&vs, &vec![0b1111_0000]));
    assert!(!check_quorum(&vs, &vec![0b1110_0000]));
}

#[test]
fn quorum_counts_weight_not_heads() {
    let vs = validators_from_raw(&vec![raw(1, 10), raw(2, 1), raw(3, 1)]).unwrap();
    assert!(check_quorum(&vs, &vec![0b1000_0000]));
    assert!(!check_quorum(&vs, &vec![0b0110_0000]));
}

#[test]
fn more_signers_keep_a_quorum() {
    let vs = validators(9);
    assert!(check_quorum(&vs, &vec![0b1111_1100, 0]));
    assert!(check_quorum(&vs, &vec![0b1111_1110, 0b1000_0000]));
}

#[test]
fn ceil_two_thirds_of_unit_weights_reach_quorum() {
    for n in [3u8, 4, 7, 10] {
        let vs = validators(n);
        let signers = (2 * n as usize + 2) / 3;
        let mut bitmap = vec![0u8; 2];
        for i in 0..signers {
            bitmap[i / 8] |= 0x80 >> (i % 8);
        }
        assert!(check_quorum(&vs, &bitmap));
    }
}

#[test]
fn receipts_root_is_read_from_block() {
    assert_eq!(receipts_root(&encoded_block([7u8; 32])), Some([7u8; 32]));
    assert_eq!(receipts_root(&vec![0xff, 0x00]), None);
}

#[test]
fn aggregate_proof_fields_are_read() {
    let p = aggregate_proof(&rlp::encode(&consensus_proof(vec![0b1100_0000])).to_vec()).unwrap();
    assert_eq!(p.number, 5);
    assert_eq!(p.round, 1);
    assert_eq!(p.block_hash, [9u8; 32]);
    assert_eq!(p.signature, vec![3u8; 96]);
    assert_eq!(p.bitmap, vec![0b1100_0000]);
    assert_eq!(aggregate_proof(&vec![0xc1]), None);
}

#[test]
fn empty_validator_set_accepts_in_bootstrap_mode() {
    let mut c = AxonClient::new([1u8; 32], &vec![]).unwrap();
    c.set_bootstrap(true);
    assert!(c.bootstrap);
    let mut p = object_proof(vec![]);
    p.block = vec![0xff];
    assert_eq!(c.verify_object(&p, false), Ok(()));
}

#[test]
fn empty_validator_set_refuses_by_default() {
    let c = AxonClient::new([1u8; 32], &vec![]).unwrap();
    assert!(!c.bootstrap);
    let mut p = object_proof(vec![]);
    p.block = vec![0xff];
    assert_eq!(c.verify_object(&p, true), Err(VerifyError::InvalidReceiptProof));
}

#[test]
fn bootstrap_switch_leaves_the_rest() {
    let mut c = AxonClient::new([3u8; 32], &vec![raw(1, 1)]).unwrap();
    c.set_bootstrap(true);
    c.set_bootstrap(false);
    assert!(!c.bootstrap);
    assert_eq!(c.id, [3u8; 32]);
    assert_eq!(c.validators.len(), 1);
}

#[test]
fn addresses_compare_byte_by_byte() {
    let mut a = [5u8; 20];
    let b = [5u8; 20];
    assert!(!address_less(&a, &b));
    a[19] = 4;
    assert!(address_less(&a, &b));
    a[0] = 6;
    assert!(!address_less(&a, &b));
    assert!(address_less(&b, &a));
}

#[test]
fn rank_follows_address_order() {
    let vs = validators_from_raw(&vec![raw(9, 1), raw(2, 1), raw(5, 1), raw(2, 1)]).unwrap();
    assert_eq!(address_rank(&vs, 0), 3);
    assert_eq!(address_rank(&vs, 1), 0);
    assert_eq!(address_rank(&vs, 2), 2);
    assert_eq!(address_rank(&vs, 3), 1);
}

#[test]
fn bitmap_is_read_in_address_order() {
    let vs = validators_from_raw(&vec![raw(9, 100), raw(2, 1), raw(3, 1), raw(4, 1)]).unwrap();
    assert!(!check_quorum(&vs, &vec![0b1110_0000]));
    assert!(check_quorum(&vs, &vec![0b0001_0000]));
}

#[test]
fn corrupt_block_is_a_decode_failure() {
    let c = client(3);
    let mut p = object_proof(vec![0b1110_0000]);
    p.block[0] = 0x00;
    assert_eq!(c.verify_object(&p, true), Err(VerifyError::DecodeFailure));
}

#[test]
fn corrupt_aggregate_proof_is_a_decode_failure() {
    let c = client(3);
    let mut p = object_proof(vec![0b1110_0000]);
    p.axon_proof[0] = 0x00;
    assert_eq!(c.verify_object(&p, true), Err(VerifyError::DecodeFailure));
}

#[test]
fn excluded_object_is_refused() {
    let c = client(3);
    let p = object_proof(vec![0b1110_0000]);
    assert_eq!(c.verify_object(&p, false), Err(VerifyError::InvalidReceiptProof));
}

#[test]
fn one_third_of_signers_is_refused() {
    let c = client(6);
    let p = object_proof(vec![0b1100_0000]);
    assert_eq!(c.verify_object(&p, true), Err(VerifyError::InvalidReceiptProof));
}

#[test]
fn forged_signature_is_refused() {
    let c = client(3);
    let p = object_proof(vec![0b1110_0000]);
    assert_eq!(c.verify_object(&p, true), Err(VerifyError::InvalidReceiptProof));
}

#[test]
fn verification_repeats_and_keeps_validators() {
    let c = client(3);
    let before = c.validators.clone();
    let p = object_proof(vec![0b1110_0000]);
    let first = c.verify_object(&p, true);
    let second = c.verify_object(&p, true);
    assert_eq!(first, second);
    assert_eq!(c.validators, before);
}
