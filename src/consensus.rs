use vstd::prelude::*;

use axon_tools::types::{AxonBlock, Proof, Proposal, Vote, H256};
use blst::min_pk::{AggregatePublicKey, PublicKey, Signature};
use blst::BLST_ERROR;
use rlp::Encodable;

verus! {

/// An aggregate-signature proof of the remote chain, decoded.
#[derive(Debug, Clone, PartialEq, Eq)]
pub struct AggregateProof {
    pub number: u64,
    pub round: u64,
    pub block_hash: [u8; 32],
    pub signature: Vec<u8>,
    pub bitmap: Vec<u8>,
}

impl AggregateProof {
    pub open spec fn view(&self) -> (u64, u64, Seq<u8>, Seq<u8>, Seq<u8>) {
        (self.number, self.round, self.block_hash@, self.signature@, self.bitmap@)
    }
}

/// The receipts root of the block that the bytes decode to, if they decode.
pub uninterp spec fn block_receipts_root(b: Seq<u8>) -> Option<Seq<u8>>;

/// The fields of the aggregate proof that the bytes decode to, if they decode.
pub uninterp spec fn decoded_proof(b: Seq<u8>) -> Option<(u64, u64, Seq<u8>, Seq<u8>, Seq<u8>)>;

/// The encoded proposal that a block (as bytes) was voted on over a previous
/// state root.
pub uninterp spec fn proposal_of(block: Seq<u8>, state_root: Seq<u8>) -> Seq<u8>;

/// The Keccak-256 digest of the bytes.
pub uninterp spec fn keccak_of(data: Seq<u8>) -> Seq<u8>;

/// The encoded vote of a height, a round, a vote type and a block hash.
pub uninterp spec fn vote_of(height: u64, round: u64, vote_type: u8, block_hash: Seq<u8>) -> Seq<u8>;

/// Whether the signature is a valid BLS aggregate signature of the message
/// under the aggregate of the public keys.
pub uninterp spec fn bls_aggregate_valid(keys: Seq<Seq<u8>>, signature: Seq<u8>, message: Seq<u8>, dst: Seq<char>) -> bool;

/// Relies on rlp::decode::<axon_tools::types::AxonBlock>: decoding depends on
/// the bytes alone; the block's `receipts_root` is read on success.
#[verifier::external_body]
pub(crate) fn decode_receipts_root(b: &Vec<u8>) -> (r: Option<[u8; 32]>)
    ensures
        r.is_some() == block_receipts_root(b@).is_some(),
        r matches Some(x) ==> block_receipts_root(b@) == Some(x@),
{
    match rlp::decode::<AxonBlock>(b) {
        Ok(block) => Some(block.header.receipts_root.0),
        Err(_) => None,
    }
}

/// Relies on rlp::decode::<axon_tools::types::Proof>: decoding depends on the
/// bytes alone; the fields are copied out on success.
#[verifier::external_body]
pub(crate) fn decode_proof(b: &Vec<u8>) -> (r: Option<AggregateProof>)
    ensures
        r.is_some() == decoded_proof(b@).is_some(),
        r matches Some(p) ==> decoded_proof(b@) == Some(p.view()),
{
    match rlp::decode::<Proof>(b) {
        Ok(p) => Some(AggregateProof {
            number: p.number,
            round: p.round,
            block_hash: p.block_hash.0,
            signature: p.signature.to_vec(),
            bitmap: p.bitmap.to_vec(),
        }),
        Err(_) => None,
    }
}

/// Relies on rlp::decode::<axon_tools::types::AxonBlock> and on the rlp
/// encoding of axon_tools::types::Proposal: the header fields that are voted
/// on, with the given state root as the previous one. `None` exactly where the
/// block does not decode.
#[verifier::external_body]
pub(crate) fn proposal_encoding(block: &Vec<u8>, state_root: &[u8; 32]) -> (r: Option<Vec<u8>>)
    ensures
        r.is_some() == block_receipts_root(block@).is_some(),
        r matches Some(e) ==> e@ == proposal_of(block@, state_root@),
{
    let Ok(b) = rlp::decode::<AxonBlock>(block) else { return None };
    let h = b.header;
    Some(Proposal { prev_hash: h.prev_hash, proposer: h.proposer, prev_state_root: H256(*state_root),
        transactions_root: h.transactions_root, signed_txs_hash: h.signed_txs_hash,
        timestamp: h.timestamp, number: h.number, gas_limit: h.gas_limit, extra_data: h.extra_data,
        mixed_hash: h.mixed_hash, base_fee_per_gas: h.base_fee_per_gas, proof: h.proof,
        chain_id: h.chain_id, call_system_script_count: h.call_system_script_count,
        tx_hashes: b.tx_hashes }.rlp_bytes().to_vec())
}

/// Relies on axon_tools::keccak_256: the digest depends on the bytes alone.
#[verifier::external_body]
pub(crate) fn keccak(data: &Vec<u8>) -> (r: [u8; 32])
    ensures
        r@ == keccak_of(data@),
{
    axon_tools::keccak_256(data)
}

/// Relies on the rlp encoding of axon_tools::types::Vote.
#[verifier::external_body]
pub(crate) fn vote_encoding(height: u64, round: u64, vote_type: u8, block_hash: &[u8; 32]) -> (r: Vec<u8>)
    ensures
        r@ == vote_of(height, round, vote_type, block_hash@),
{
    rlp::encode(&Vote { height, round, vote_type, block_hash: block_hash.to_vec().into() }).to_vec()
}

/// Relies on blst's min_pk scheme (PublicKey::from_bytes,
/// AggregatePublicKey::aggregate, Signature::from_bytes, Signature::verify
/// with the ciphersuite tag `dst`): the verdict depends on the keys, the
/// signature, the message and the tag alone.
#[verifier::external_body]
pub(crate) fn bls_verify(keys: &Vec<Vec<u8>>, signature: &Vec<u8>, message: &[u8; 32], dst: &str) -> (r: bool)
    ensures
        r == bls_aggregate_valid(keys@.map_values(|k: Vec<u8>| k@), signature@, message@, dst@),
{
    let Ok(pks) = keys.iter().map(|k| PublicKey::from_bytes(k)).collect::<Result<Vec<_>, _>>() else { return false };
    let refs: Vec<&PublicKey> = pks.iter().collect();
    let Ok(agg) = AggregatePublicKey::aggregate(&refs, true) else { return false };
    let Ok(sig) = Signature::from_bytes(signature) else { return false };
    sig.verify(true, message, dst.as_bytes(), &[], &agg.to_public_key(), true) == BLST_ERROR::BLST_SUCCESS
}

/// The receipts root of an encoded block, or `None` where the bytes do not decode.
pub fn receipts_root(block: &Vec<u8>) -> (r: Option<[u8; 32]>)
    ensures
        r.is_some() == block_receipts_root(block@).is_some(),
        r matches Some(x) ==> block_receipts_root(block@) == Some(x@),
{
    decode_receipts_root(block)
}

/// Decodes an encoded aggregate proof, or `None` where the bytes do not decode.
pub fn aggregate_proof(proof: &Vec<u8>) -> (r: Option<AggregateProof>)
    ensures
        r.is_some() == decoded_proof(proof@).is_some(),
        r matches Some(p) ==> decoded_proof(proof@) == Some(p.view()),
{
    decode_proof(proof)
}

} // verus!
