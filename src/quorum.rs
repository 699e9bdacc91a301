use vstd::prelude::*;

use crate::validator::Validator;

verus! {

/// Bit `i` of a participation bitmap, most significant bit of each byte first.
/// Positions past the bitmap's end are unset.
pub open spec fn bit_set(bitmap: Seq<u8>, i: int) -> bool {
    0 <= i && i / 8 < bitmap.len() && ((bitmap[i / 8] >> ((7 - i % 8) as u8)) & 1u8) == 1u8
}

/// Address `a` comes before address `b`, byte by byte.
pub open spec fn addr_less(a: Seq<u8>, b: Seq<u8>) -> bool {
    exists|k: int|
        0 <= k < a.len() && k < b.len() && a[k] < b[k] && #[trigger] a.subrange(0, k) == b.subrange(0, k)
}

/// Validator `j` stands before validator `i` once the set is sorted by
/// address, equal addresses keeping their order.
pub open spec fn precedes(vals: Seq<Validator>, j: int, i: int) -> bool {
    addr_less(vals[j].address@, vals[i].address@) || (vals[j].address@ == vals[i].address@ && j < i)
}

/// How many of the first `n` validators stand before validator `i`.
pub open spec fn rank_upto(vals: Seq<Validator>, i: int, n: nat) -> nat
    decreases n,
{
    if n == 0 {
        0
    } else {
        rank_upto(vals, i, (n - 1) as nat) + if precedes(vals, n - 1, i) {
            1nat
        } else {
            0nat
        }
    }
}

/// The position of validator `i` in address order: the bit of the
/// participation bitmap that stands for it.
pub open spec fn rank(vals: Seq<Validator>, i: int) -> nat {
    rank_upto(vals, i, vals.len())
}

/// Vote weight of the first `n` validators whose bit, in address order, is set.
pub open spec fn signed_weight(vals: Seq<Validator>, bitmap: Seq<u8>, n: nat) -> int
    decreases n,
{
    if n == 0 {
        0
    } else {
        signed_weight(vals, bitmap, (n - 1) as nat) + if bit_set(bitmap, rank(vals, n - 1) as int) {
            vals[n - 1].vote_weight as int
        } else {
            0
        }
    }
}

/// Vote weight of the first `n` validators.
pub open spec fn total_weight(vals: Seq<Validator>, n: nat) -> int
    decreases n,
{
    if n == 0 {
        0
    } else {
        total_weight(vals, (n - 1) as nat) + vals[n - 1].vote_weight as int
    }
}

/// The signers named by `bitmap` hold at least two thirds of the vote weight.
pub open spec fn quorum(vals: Seq<Validator>, bitmap: Seq<u8>) -> bool {
    3 * signed_weight(vals, bitmap, vals.len()) >= 2 * total_weight(vals, vals.len())
}

/// Every signer of `small` is a signer of `large`.
pub open spec fn signers_covered(small: Seq<u8>, large: Seq<u8>) -> bool {
    forall|i: int| #[trigger] bit_set(small, i) ==> bit_set(large, i)
}

proof fn lemma_weights_bounded(vals: Seq<Validator>, bitmap: Seq<u8>, n: nat)
    requires
        n <= vals.len(),
    ensures
        0 <= signed_weight(vals, bitmap, n) <= total_weight(vals, n),
        total_weight(vals, n) <= n * 0xffff_ffff,
    decreases n,
{
    if n > 0 {
        lemma_weights_bounded(vals, bitmap, (n - 1) as nat);
        assert((n - 1) * 0xffff_ffff + 0xffff_ffff == n * 0xffff_ffff) by (nonlinear_arith);
    }
}

proof fn lemma_signed_weight_covered(vals: Seq<Validator>, small: Seq<u8>, large: Seq<u8>, n: nat)
    requires
        n <= vals.len(),
        signers_covered(small, large),
    ensures
        signed_weight(vals, small, n) <= signed_weight(vals, large, n),
    decreases n,
{
    if n > 0 {
        lemma_signed_weight_covered(vals, small, large, (n - 1) as nat);
        if bit_set(small, rank(vals, n - 1) as int) {
            assert(bit_set(large, rank(vals, n - 1) as int));
        }
    }
}

/// More signers never lose a quorum: a bitmap that sets every bit another
/// one sets reaches quorum over the same validators whenever the other does.
pub proof fn lemma_quorum_monotone(vals: Seq<Validator>, small: Seq<u8>, large: Seq<u8>)
    requires
        signers_covered(small, large),
        quorum(vals, small),
    ensures
        quorum(vals, large),
{
    lemma_signed_weight_covered(vals, small, large, vals.len());
}

/// Two validator lists that agree on BLS keys, addresses and vote weights.
pub open spec fn same_votes(a: Seq<Validator>, b: Seq<Validator>) -> bool {
    a.len() == b.len() && forall|i: int|
        0 <= i < a.len() ==> (#[trigger] a[i]).address@ == b[i].address@ && a[i].vote_weight == b[i].vote_weight
            && a[i].bls_pub_key@ == b[i].bls_pub_key@
}

/// The BLS keys of the first `n` validators whose bit, in address order, is
/// set, in the set's order.
pub open spec fn signer_keys(vals: Seq<Validator>, bitmap: Seq<u8>, n: nat) -> Seq<Seq<u8>>
    decreases n,
{
    if n == 0 {
        Seq::empty()
    } else if bit_set(bitmap, rank(vals, n - 1) as int) {
        signer_keys(vals, bitmap, (n - 1) as nat).push(vals[n - 1].bls_pub_key@)
    } else {
        signer_keys(vals, bitmap, (n - 1) as nat)
    }
}

/// The signers' keys depend on the validators' keys and addresses alone.
pub proof fn lemma_signer_keys_same_votes(a: Seq<Validator>, b: Seq<Validator>, bitmap: Seq<u8>, n: nat)
    requires
        same_votes(a, b),
        n <= a.len(),
    ensures
        signer_keys(a, bitmap, n) == signer_keys(b, bitmap, n),
    decreases n,
{
    if n > 0 {
        lemma_signer_keys_same_votes(a, b, bitmap, (n - 1) as nat);
        lemma_rank_same_votes(a, b, n - 1, a.len());
        assert(a[n - 1].bls_pub_key@ == b[n - 1].bls_pub_key@);
    }
}

proof fn lemma_rank_same_votes(a: Seq<Validator>, b: Seq<Validator>, i: int, n: nat)
    requires
        same_votes(a, b),
        0 <= i < a.len(),
        n <= a.len(),
    ensures
        rank_upto(a, i, n) == rank_upto(b, i, n),
    decreases n,
{
    if n > 0 {
        lemma_rank_same_votes(a, b, i, (n - 1) as nat);
        assert(a[n - 1].address@ == b[n - 1].address@);
        assert(a[i].address@ == b[i].address@);
    }
}

proof fn lemma_weights_same_votes(a: Seq<Validator>, b: Seq<Validator>, bitmap: Seq<u8>, n: nat)
    requires
        same_votes(a, b),
        n <= a.len(),
    ensures
        signed_weight(a, bitmap, n) == signed_weight(b, bitmap, n),
        total_weight(a, n) == total_weight(b, n),
    decreases n,
{
    if n > 0 {
        lemma_weights_same_votes(a, b, bitmap, (n - 1) as nat);
        lemma_rank_same_votes(a, b, n - 1, a.len());
        assert(a[n - 1].vote_weight == b[n - 1].vote_weight);
    }
}

/// Quorum depends on the validators' addresses and vote weights alone.
pub proof fn lemma_quorum_same_votes(a: Seq<Validator>, b: Seq<Validator>, bitmap: Seq<u8>)
    requires
        same_votes(a, b),
    ensures
        quorum(a, bitmap) == quorum(b, bitmap),
{
    lemma_weights_same_votes(a, b, bitmap, a.len());
}

/// Whether validator `i` signed, by the bitmap.
pub fn is_signer(bitmap: &Vec<u8>, i: usize) -> (r: bool)
    ensures
        r == bit_set(bitmap@, i as int),
{
    let byte = i / 8;
    if byte >= bitmap.len() {
        return false;
    }
    let shift = (7 - i % 8) as u8;
    (bitmap[byte] >> shift) & 1u8 == 1u8
}

/// Whether address `a` comes before address `b`.
pub fn address_less(a: &[u8; 20], b: &[u8; 20]) -> (r: bool)
    ensures
        r == addr_less(a@, b@),
{
    let mut i: usize = 0;
    while i < 20
        invariant
            0 <= i <= 20,
            a@.subrange(0, i as int) == b@.subrange(0, i as int),
        decreases 20 - i,
    {
        if a[i] < b[i] {
            return true;
        }
        if a[i] > b[i] {
            assert forall|k: int|
                0 <= k < a@.len() && k < b@.len() && a@[k] < b@[k] implies #[trigger] a@.subrange(0, k)
                != b@.subrange(0, k) by {
                if k <= i {
                    assert(a@.subrange(0, k) =~= a@.subrange(0, i as int).subrange(0, k));
                    assert(b@.subrange(0, k) =~= b@.subrange(0, i as int).subrange(0, k));
                    if k < i {
                        assert(a@.subrange(0, i as int)[k] == b@.subrange(0, i as int)[k]);
                    }
                } else {
                    assert(a@.subrange(0, k)[i as int] != b@.subrange(0, k)[i as int]);
                }
            }
            return false;
        }
        assert(a@.subrange(0, i + 1) =~= a@.subrange(0, i as int).push(a@[i as int]));
        assert(b@.subrange(0, i + 1) =~= b@.subrange(0, i as int).push(b@[i as int]));
        i = i + 1;
    }
    assert forall|k: int|
        0 <= k < a@.len() && k < b@.len() && a@[k] < b@[k] implies #[trigger] a@.subrange(0, k) != b@.subrange(
        0,
        k,
    ) by {
        assert(a@.subrange(0, 20)[k] == b@.subrange(0, 20)[k]);
    }
    false
}

/// The position of validator `i` once the set is sorted by address.
pub fn address_rank(vals: &Vec<Validator>, i: usize) -> (r: usize)
    requires
        i < vals@.len(),
    ensures
        r == rank(vals@, i as int),
{
    let mut count: usize = 0;
    let mut j: usize = 0;
    while j < vals.len()
        invariant
            0 <= j <= vals@.len(),
            i < vals@.len(),
            count == rank_upto(vals@, i as int, j as nat),
            count <= j,
        decreases vals@.len() - j,
    {
        let before = address_less(&vals[j].address, &vals[i].address);
        let tied = j < i && !address_less(&vals[j].address, &vals[i].address) && !address_less(
            &vals[i].address,
            &vals[j].address,
        );
        if before || tied {
            proof {
                if tied {
                    assert(vals@[j as int].address@.subrange(0, 0) =~= vals@[i as int].address@.subrange(0, 0));
                    lemma_addr_not_less_equal(vals@[j as int].address@, vals@[i as int].address@, 0);
                }
            }
            count = count + 1;
        } else {
            proof {
                lemma_addr_equal_not_less(vals@[j as int].address@, vals@[i as int].address@);
            }
        }
        j = j + 1;
    }
    count
}

proof fn lemma_addr_not_less_equal(a: Seq<u8>, b: Seq<u8>, i: int)
    requires
        a.len() == 20,
        b.len() == 20,
        0 <= i <= 20,
        a.subrange(0, i) == b.subrange(0, i),
        !addr_less(a, b),
        !addr_less(b, a),
    ensures
        a == b,
    decreases 20 - i,
{
    if i == 20 {
        assert(a =~= a.subrange(0, 20));
        assert(b =~= b.subrange(0, 20));
    } else {
        if a[i] < b[i] {
            assert(a.subrange(0, i) == b.subrange(0, i));
            assert(addr_less(a, b));
        } else if b[i] < a[i] {
            assert(b.subrange(0, i) == a.subrange(0, i));
            assert(addr_less(b, a));
        } else {
            assert(a.subrange(0, i + 1) =~= a.subrange(0, i).push(a[i]));
            assert(b.subrange(0, i + 1) =~= b.subrange(0, i).push(b[i]));
            lemma_addr_not_less_equal(a, b, i + 1);
        }
    }
}

proof fn lemma_addr_equal_not_less(a: Seq<u8>, b: Seq<u8>)
    ensures
        a == b ==> !addr_less(a, b),
{
}

/// The BLS keys of the validators whose bit, in address order, is set.
pub fn signer_keys_of(validators: &Vec<Validator>, bitmap: &Vec<u8>) -> (r: Vec<Vec<u8>>)
    ensures
        r@.map_values(|k: Vec<u8>| k@) == signer_keys(validators@, bitmap@, validators@.len()),
{
    let mut keys: Vec<Vec<u8>> = Vec::new();
    let mut i: usize = 0;
    while i < validators.len()
        invariant
            0 <= i <= validators@.len(),
            keys@.map_values(|k: Vec<u8>| k@) == signer_keys(validators@, bitmap@, i as nat),
        decreases validators@.len() - i,
    {
        let position = address_rank(validators, i);
        if is_signer(bitmap, position) {
            let key = validators[i].bls_pub_key.clone();
            let ghost before = keys@;
            keys.push(key);
            assert(keys@.map_values(|k: Vec<u8>| k@) =~= before.map_values(|k: Vec<u8>| k@).push(key@));
        }
        i = i + 1;
    }
    keys
}

/// Whether the signers named by `bitmap` hold at least two thirds of the
/// validators' total vote weight.
pub fn check_quorum(validators: &Vec<Validator>, bitmap: &Vec<u8>) -> (r: bool)
    ensures
        r == quorum(validators@, bitmap@),
{
    let mut signed: u128 = 0;
    let mut total: u128 = 0;
    let mut i: usize = 0;
    while i < validators.len()
        invariant
            0 <= i <= validators@.len(),
            signed as int == signed_weight(validators@, bitmap@, i as nat),
            total as int == total_weight(validators@, i as nat),
        decreases validators@.len() - i,
    {
        proof {
            lemma_weights_bounded(validators@, bitmap@, i as nat);
            assert(i * 0xffff_ffffu128 <= 0xffff_ffff_ffff_ffffu128 * 0xffff_ffffu128)
                by (nonlinear_arith)
                requires
                    i <= 0xffff_ffff_ffff_ffffu64,
            ;
        }
        let w = validators[i].vote_weight as u128;
        let position = address_rank(validators, i);
        if is_signer(bitmap, position) {
            signed = signed + w;
        }
        total = total + w;
        i = i + 1;
    }
    proof {
        lemma_weights_bounded(validators@, bitmap@, validators@.len());
    }
    3 * signed >= 2 * total
}

} // verus!
