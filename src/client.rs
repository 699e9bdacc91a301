use vstd::prelude::*;

use crate::consensus::{
    block_receipts_root, bls_aggregate_valid, bls_verify, decode_proof, decode_receipts_root,
    decoded_proof, keccak, keccak_of, proposal_encoding, proposal_of, vote_encoding, vote_of,
};
use crate::error::{Error, VerifyError};
use crate::guard::same_id;
use crate::quorum::{
    check_quorum, lemma_quorum_same_votes, lemma_signer_keys_same_votes, quorum, same_votes, signer_keys,
    signer_keys_of,
};
use crate::validator::{read_as, reads_all, records_ok, validators_from_raw, RawValidator, Validator};

verus! {

/// The proof material that comes with an object: an encoded block, the
/// receipt and its Merkle path, an encoded aggregate proof, and the state root
/// that the block was proposed on.
#[derive(Debug, Clone, PartialEq, Eq)]
pub struct ObjectProof {
    pub block: Vec<u8>,
    pub receipt: Vec<u8>,
    pub receipt_proof: Vec<u8>,
    pub axon_proof: Vec<u8>,
    pub state_root: [u8; 32],
}

/// A light client of the remote chain: its identity and validator set.
///
/// `bootstrap` is the relaxed mode: while it is on and the validator set is
/// empty, every proof is accepted. It gives no security at all, is off in
/// every client that `new` builds, and is turned on only by `set_bootstrap`.
#[derive(Debug, Clone, PartialEq, Eq)]
pub struct AxonClient {
    pub id: [u8; 32],
    pub validators: Vec<Validator>,
    pub bootstrap: bool,
}

/// The vote type of a precommit, the vote that commits a block.
pub const PRECOMMIT: u8 = 2;

/// The BLS ciphersuite of the remote chain's votes.
pub const BLS_CIPHERSUITE: &'static str = "BLS_SIG_BLS12381G2_XMD:SHA-256_SSWU_RONUL";

/// The aggregate proof `p` signs the block: its block hash is the digest of
/// the block's proposal over `state_root`, and its signature is a valid BLS
/// aggregate of the signers' keys over the digest of the precommit vote.
pub open spec fn signature_valid(
    vals: Seq<Validator>,
    block: Seq<u8>,
    state_root: Seq<u8>,
    p: (u64, u64, Seq<u8>, Seq<u8>, Seq<u8>),
) -> bool {
    &&& keccak_of(proposal_of(block, state_root)) == p.2
    &&& bls_aggregate_valid(
        signer_keys(vals, p.4, vals.len()),
        p.3,
        keccak_of(vote_of(p.0, p.1, PRECOMMIT, p.2)),
        BLS_CIPHERSUITE@,
    )
}

/// The verdict on a proof, where `included` says whether the receipt and its
/// path place the object under the block's receipts root.
///
/// An empty validator set accepts everything in bootstrap mode and nothing
/// otherwise.
pub open spec fn verify_outcome(vals: Seq<Validator>, bootstrap: bool, proof: ObjectProof, included: bool) -> Result<(), VerifyError> {
    if vals.len() == 0 {
        if bootstrap {
            Ok(())
        } else {
            Err(VerifyError::InvalidReceiptProof)
        }
    } else if block_receipts_root(proof.block@).is_none() {
        Err(VerifyError::DecodeFailure)
    } else {
        match decoded_proof(proof.axon_proof@) {
            None => Err(VerifyError::DecodeFailure),
            Some(p) => {
                if included && quorum(vals, p.4) && signature_valid(vals, proof.block@, proof.state_root@, p) {
                    Ok(())
                } else {
                    Err(VerifyError::InvalidReceiptProof)
                }
            },
        }
    }
}

impl AxonClient {
    /// Builds a client from its identity and the validator records of its metadata.
    pub fn new(id: [u8; 32], records: &Vec<RawValidator>) -> (r: Result<Self, Error>)
        ensures
            r.is_ok() <==> records_ok(records@),
            r matches Ok(c) ==> c.id == id && reads_all(records@, c.validators@) && !c.bootstrap,
            r matches Err(e) ==> e == Error::MetadataSerde,
    {
        let validators = validators_from_raw(records)?;
        Ok(AxonClient { id, validators, bootstrap: false })
    }

    /// Turns the bootstrap mode on or off; nothing else changes.
    pub fn set_bootstrap(&mut self, on: bool)
        ensures
            final(self).bootstrap == on,
            final(self).id == old(self).id,
            final(self).validators == old(self).validators,
    {
        self.bootstrap = on;
    }

    /// The client's identity.
    pub fn client_id(&self) -> (r: &[u8; 32])
        ensures
            *r == self.id,
    {
        &self.id
    }

    /// Checks a proof of an object against the validator set, which is left
    /// as it was. `included` is the verdict of the receipt-trie check of the
    /// object under the block's receipts root (see `receipts_root`).
    pub fn verify_object(&self, proof: &ObjectProof, included: bool) -> (r: Result<(), VerifyError>)
        ensures
            r == verify_outcome(self.validators@, self.bootstrap, *proof, included),
    {
        if self.validators.len() == 0 {
            if self.bootstrap {
                return Ok(());
            }
            return Err(VerifyError::InvalidReceiptProof);
        }
        if decode_receipts_root(&proof.block).is_none() {
            return Err(VerifyError::DecodeFailure);
        }
        let aggregate = match decode_proof(&proof.axon_proof) {
            Some(p) => p,
            None => return Err(VerifyError::DecodeFailure),
        };
        if !included {
            return Err(VerifyError::InvalidReceiptProof);
        }
        if !check_quorum(&self.validators, &aggregate.bitmap) {
            return Err(VerifyError::InvalidReceiptProof);
        }
        let proposal = match proposal_encoding(&proof.block, &proof.state_root) {
            Some(e) => e,
            None => return Err(VerifyError::DecodeFailure),
        };
        if !same_id(&keccak(&proposal), &aggregate.block_hash) {
            return Err(VerifyError::InvalidReceiptProof);
        }
        let vote = vote_encoding(aggregate.number, aggregate.round, PRECOMMIT, &aggregate.block_hash);
        let message = keccak(&vote);
        let keys = signer_keys_of(&self.validators, &aggregate.bitmap);
        if !bls_verify(&keys, &aggregate.signature, &message, BLS_CIPHERSUITE) {
            return Err(VerifyError::InvalidReceiptProof);
        }
        Ok(())
    }
}

/// Below quorum, a proof is refused: where the aggregate proof's signers hold
/// less than two thirds of the vote weight of a non-empty set, the verdict is
/// a rejection; where the block decodes, it is the invalid-proof error.
pub proof fn lemma_below_quorum_rejects(vals: Seq<Validator>, bootstrap: bool, proof: ObjectProof, included: bool)
    requires
        vals.len() > 0,
        decoded_proof(proof.axon_proof@) matches Some(p) && !quorum(vals, p.4),
    ensures
        verify_outcome(vals, bootstrap, proof, included) is Err,
        block_receipts_root(proof.block@).is_some() ==> verify_outcome(vals, bootstrap, proof, included)
            == Err::<(), VerifyError>(VerifyError::InvalidReceiptProof),
{
}

/// Bytes that do not decode, as a block or as an aggregate proof, are refused
/// with a decode error, never accepted.
pub proof fn lemma_decode_failure_rejects(vals: Seq<Validator>, bootstrap: bool, proof: ObjectProof, included: bool)
    requires
        vals.len() > 0,
        block_receipts_root(proof.block@).is_none() || decoded_proof(proof.axon_proof@).is_none(),
    ensures
        verify_outcome(vals, bootstrap, proof, included) == Err::<(), VerifyError>(VerifyError::DecodeFailure),
{
}

/// An object that the receipt and its path do not place under the block's
/// receipts root is refused, whatever the signature.
pub proof fn lemma_exclusion_rejects(vals: Seq<Validator>, bootstrap: bool, proof: ObjectProof)
    requires
        vals.len() > 0,
        block_receipts_root(proof.block@).is_some(),
        decoded_proof(proof.axon_proof@).is_some(),
    ensures
        verify_outcome(vals, bootstrap, proof, false) == Err::<(), VerifyError>(VerifyError::InvalidReceiptProof),
{
}

/// Acceptance needs all three checks: with a non-empty set, an accepted proof
/// decodes, includes the object, reaches quorum and carries a valid signature.
pub proof fn lemma_accept_needs_all(vals: Seq<Validator>, bootstrap: bool, proof: ObjectProof, included: bool)
    requires
        vals.len() > 0,
        verify_outcome(vals, bootstrap, proof, included) is Ok,
    ensures
        included,
        block_receipts_root(proof.block@).is_some(),
        decoded_proof(proof.axon_proof@) matches Some(p) && quorum(vals, p.4),
        decoded_proof(proof.axon_proof@) matches Some(p) && signature_valid(vals, proof.block@, proof.state_root@, p),
{
}

/// The verdict depends on what the validator records read as, not on which
/// reading of them is at hand.
pub proof fn lemma_outcome_same_reading(
    records: Seq<RawValidator>,
    a: Seq<Validator>,
    b: Seq<Validator>,
    bootstrap: bool,
    proof: ObjectProof,
    included: bool,
)
    requires
        reads_all(records, a),
        reads_all(records, b),
    ensures
        verify_outcome(a, bootstrap, proof, included) == verify_outcome(b, bootstrap, proof, included),
{
    assert(same_votes(a, b)) by {
        assert forall|i: int| 0 <= i < a.len() implies (#[trigger] a[i]).address@ == b[i].address@
            && a[i].vote_weight == b[i].vote_weight && a[i].bls_pub_key@ == b[i].bls_pub_key@ by {
            assert(read_as(records[i], a[i]));
            assert(read_as(records[i], b[i]));
        }
    }
    if let Some(p) = decoded_proof(proof.axon_proof@) {
        lemma_quorum_same_votes(a, b, p.4);
        lemma_signer_keys_same_votes(a, b, p.4, a.len());
    }
}

/// Without the bootstrap mode an empty validator set accepts nothing.
pub proof fn lemma_empty_set_refuses(bootstrap: bool, proof: ObjectProof, included: bool)
    requires
        !bootstrap,
    ensures
        verify_outcome(Seq::<Validator>::empty(), bootstrap, proof, included) is Err,
{
}

} // verus!
