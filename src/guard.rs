use vstd::prelude::*;

use crate::client::{lemma_outcome_same_reading, verify_outcome, AxonClient, ObjectProof};
use crate::error::VerifyError;
use crate::validator::{reads_all, records_ok, RawValidator, Validator};

verus! {

/// A light-client state cell: the governing identifier that ties a client's
/// successive cells together, and the validator records of its state.
#[derive(Debug, Clone, PartialEq, Eq)]
pub struct ClientCell {
    pub id: [u8; 32],
    pub validators: Vec<RawValidator>,
}

/// Why a create or update transaction is refused.
#[derive(Debug, Clone, Copy, PartialEq, Eq, Structural)]
pub enum GuardError {
    /// A client under this identifier exists already.
    IdCollision,
    /// The new cell's identifier differs from the old one's.
    IdMismatch,
    /// No proof came with the update.
    MissingProof,
    /// The bootstrap condition of a new client does not hold.
    BootstrapRejected,
    /// A cell's validator records cannot be read.
    Metadata,
    /// The proof was refused.
    Verify(VerifyError),
}

/// What a transaction does to one governing identifier.
#[derive(Debug, Clone, Copy, PartialEq, Eq, Structural)]
pub enum Shape {
    /// No cell under the identifier is consumed and one is produced.
    Create,
    /// One cell under the identifier is consumed and one is produced.
    Update,
    /// Anything else: a fork, a deletion, or several cells consumed.
    Reject,
}

/// How many of the first `n` identifiers are `id`.
pub open spec fn id_count(ids: Seq<[u8; 32]>, id: Seq<u8>, n: nat) -> nat
    decreases n,
{
    if n == 0 {
        0
    } else {
        id_count(ids, id, (n - 1) as nat) + if ids[n - 1]@ == id {
            1nat
        } else {
            0nat
        }
    }
}

/// The shape of a transaction whose consumed and produced client cells carry
/// the identifiers `inputs` and `outputs`, as seen from the identifier `id`.
pub open spec fn shape_of(inputs: Seq<[u8; 32]>, outputs: Seq<[u8; 32]>, id: Seq<u8>) -> Shape {
    let consumed = id_count(inputs, id, inputs.len());
    let produced = id_count(outputs, id, outputs.len());
    if consumed == 0 && produced == 1 {
        Shape::Create
    } else if consumed == 1 && produced == 1 {
        Shape::Update
    } else {
        Shape::Reject
    }
}

/// The guard's verdict on a proof verdict.
pub open spec fn lift(v: Result<(), VerifyError>) -> Result<(), GuardError> {
    match v {
        Ok(()) => Ok(()),
        Err(e) => Err(GuardError::Verify(e)),
    }
}

/// The verdict on creating `cell` where `existing` holds the identifiers in
/// use and `bootstrap_accepted` is the bootstrap condition on its proof.
pub open spec fn create_outcome(existing: Seq<[u8; 32]>, cell: ClientCell, bootstrap_accepted: bool) -> Result<(), GuardError> {
    if exists|i: int| 0 <= i < existing.len() && (#[trigger] existing[i])@ == cell.id@ {
        Err(GuardError::IdCollision)
    } else if !records_ok(cell.validators@) {
        Err(GuardError::Metadata)
    } else if !bootstrap_accepted {
        Err(GuardError::BootstrapRejected)
    } else {
        Ok(())
    }
}

/// The verdict on replacing the `old` client cell by `new`: the identifier
/// must be kept, a proof must come with the update, the old cell's records
/// must be readable, and the client they make (bootstrap mode off) must
/// accept the proof.
pub open spec fn update_outcome(old: ClientCell, new: ClientCell, witness: Option<ObjectProof>, included: bool) -> Result<(), GuardError> {
    if old.id@ != new.id@ {
        Err(GuardError::IdMismatch)
    } else if witness.is_none() {
        Err(GuardError::MissingProof)
    } else if !records_ok(old.validators@) {
        Err(GuardError::Metadata)
    } else {
        let vs = choose|vs: Seq<Validator>| reads_all(old.validators@, vs);
        lift(verify_outcome(vs, false, witness->0, included))
    }
}

/// Whether two identifiers are the same.
pub fn same_id(a: &[u8; 32], b: &[u8; 32]) -> (r: bool)
    ensures
        r == (a@ == b@),
{
    let mut i: usize = 0;
    while i < 32
        invariant
            0 <= i <= 32,
            forall|j: int| 0 <= j < i ==> a@[j] == b@[j],
        decreases 32 - i,
    {
        if a[i] != b[i] {
            return false;
        }
        i = i + 1;
    }
    assert(a@ =~= b@);
    true
}

/// How many identifiers are `id`.
fn count_id(ids: &Vec<[u8; 32]>, id: &[u8; 32]) -> (r: usize)
    ensures
        r == id_count(ids@, id@, ids@.len()),
{
    let mut count: usize = 0;
    let mut i: usize = 0;
    while i < ids.len()
        invariant
            0 <= i <= ids@.len(),
            count == id_count(ids@, id@, i as nat),
            count <= i,
        decreases ids@.len() - i,
    {
        if same_id(&ids[i], id) {
            count = count + 1;
        }
        i = i + 1;
    }
    count
}

/// Tells a create from an update by the client cells that a transaction
/// consumes and produces under the identifier `id`.
pub fn classify(inputs: &Vec<[u8; 32]>, outputs: &Vec<[u8; 32]>, id: &[u8; 32]) -> (r: Shape)
    ensures
        r == shape_of(inputs@, outputs@, id@),
{
    let consumed = count_id(inputs, id);
    let produced = count_id(outputs, id);
    if consumed == 0 && produced == 1 {
        Shape::Create
    } else if consumed == 1 && produced == 1 {
        Shape::Update
    } else {
        Shape::Reject
    }
}

/// Whether every validator record can be read.
fn all_records_ok(raws: &Vec<RawValidator>) -> (r: bool)
    ensures
        r == records_ok(raws@),
{
    let mut i: usize = 0;
    while i < raws.len()
        invariant
            0 <= i <= raws@.len(),
            forall|j: int| 0 <= j < i ==> crate::validator::raw_well_formed(#[trigger] raws@[j]),
        decreases raws@.len() - i,
    {
        let r = &raws[i];
        if r.address.len() != 20 || r.propose_weight.len() != 4 || r.vote_weight.len() != 4 {
            return false;
        }
        i = i + 1;
    }
    true
}

/// Decides a transaction that creates a client cell.
pub fn check_create(existing: &Vec<[u8; 32]>, cell: &ClientCell, bootstrap_accepted: bool) -> (r: Result<(), GuardError>)
    ensures
        r == create_outcome(existing@, *cell, bootstrap_accepted),
{
    let mut i: usize = 0;
    while i < existing.len()
        invariant
            0 <= i <= existing@.len(),
            forall|j: int| 0 <= j < i ==> (#[trigger] existing@[j])@ != cell.id@,
        decreases existing@.len() - i,
    {
        if same_id(&existing[i], &cell.id) {
            return Err(GuardError::IdCollision);
        }
        i = i + 1;
    }
    if !all_records_ok(&cell.validators) {
        return Err(GuardError::Metadata);
    }
    if !bootstrap_accepted {
        return Err(GuardError::BootstrapRejected);
    }
    Ok(())
}

/// Decides a transaction that replaces the `old` client cell by `new`. The
/// client rebuilt from the old cell's validators checks the proof; `included`
/// is the receipt-trie verdict on the object that the new cell implies.
/// Nothing is accepted in part: a wrong identifier or a missing proof refuses
/// the whole transaction, whatever else it holds.
pub fn check_update(old: &ClientCell, new: &ClientCell, witness: &Option<ObjectProof>, included: bool) -> (r: Result<(), GuardError>)
    ensures
        r == update_outcome(*old, *new, *witness, included),
{
    if !same_id(&old.id, &new.id) {
        return Err(GuardError::IdMismatch);
    }
    let proof = match witness {
        Some(p) => p,
        None => return Err(GuardError::MissingProof),
    };
    let client = match AxonClient::new(old.id, &old.validators) {
        Ok(c) => c,
        Err(_) => return Err(GuardError::Metadata),
    };
    let r = match client.verify_object(proof, included) {
        Ok(()) => Ok(()),
        Err(e) => Err(GuardError::Verify(e)),
    };
    proof {
        let vs = choose|vs: Seq<Validator>| reads_all(old.validators@, vs);
        assert(reads_all(old.validators@, client.validators@));
        lemma_outcome_same_reading(old.validators@, client.validators@, vs, false, *proof, included);
    }
    r
}

/// A client's cells are never forked or deleted: a transaction that produces
/// no cell, or more than one, under an identifier is neither a create nor an
/// update of it.
pub proof fn lemma_no_fork_or_deletion(inputs: Seq<[u8; 32]>, outputs: Seq<[u8; 32]>, id: Seq<u8>)
    requires
        id_count(outputs, id, outputs.len()) != 1,
    ensures
        shape_of(inputs, outputs, id) == Shape::Reject,
{
}

/// A creation under an identifier not in use, with readable records and a
/// bootstrap condition that holds, is accepted.
pub proof fn lemma_fresh_create_accepted(existing: Seq<[u8; 32]>, cell: ClientCell)
    requires
        forall|i: int| 0 <= i < existing.len() ==> (#[trigger] existing[i])@ != cell.id@,
        records_ok(cell.validators@),
    ensures
        create_outcome(existing, cell, true) == Ok::<(), GuardError>(()),
{
}

/// An update that changes the governing identifier is refused as a whole,
/// whatever proof comes with it and whatever the proof's verdict.
pub proof fn lemma_update_keeps_identifier(
    old: ClientCell,
    new: ClientCell,
    witness: Option<ObjectProof>,
    included: bool,
)
    requires
        old.id@ != new.id@,
    ensures
        update_outcome(old, new, witness, included) == Err::<(), GuardError>(GuardError::IdMismatch),
{
}

/// An update without a proof is refused as a whole, whatever the old cell's
/// validator set, an empty one included.
pub proof fn lemma_update_needs_proof(old: ClientCell, new: ClientCell, included: bool)
    ensures
        update_outcome(old, new, None, included) is Err,
{
}

/// An accepted update keeps the identifier, carries a proof, and that proof
/// is accepted by the client of the old cell's records.
pub proof fn lemma_update_accepted(old: ClientCell, new: ClientCell, witness: Option<ObjectProof>, included: bool)
    requires
        update_outcome(old, new, witness, included) is Ok,
    ensures
        old.id@ == new.id@,
        witness.is_some(),
        records_ok(old.validators@),
        forall|vs: Seq<Validator>|
            #[trigger] reads_all(old.validators@, vs) ==> verify_outcome(vs, false, witness->0, included) is Ok,
{
    let chosen = choose|vs: Seq<Validator>| reads_all(old.validators@, vs);
    assert forall|vs: Seq<Validator>| #[trigger] reads_all(old.validators@, vs) implies verify_outcome(
        vs,
        false,
        witness->0,
        included,
    ) is Ok by {
        lemma_outcome_same_reading(old.validators@, vs, chosen, false, witness->0, included);
    }
}

/// Once a client is created under an identifier, a second creation under the
/// same identifier is refused, whatever its records and bootstrap verdict.
pub proof fn lemma_create_twice_collides(
    existing: Seq<[u8; 32]>,
    first: ClientCell,
    first_accepted: bool,
    second: ClientCell,
    second_accepted: bool,
)
    requires
        create_outcome(existing, first, first_accepted) is Ok,
        second.id@ == first.id@,
    ensures
        create_outcome(existing.push(first.id), second, second_accepted) == Err::<(), GuardError>(
            GuardError::IdCollision,
        ),
{
    let ids = existing.push(first.id);
    assert(ids[existing.len() as int]@ == second.id@);
}

} // verus!
