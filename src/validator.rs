use vstd::prelude::*;

use crate::error::Error;

verus! {

/// A consensus participant of the remote chain.
#[derive(Debug, Clone, PartialEq, Eq)]
pub struct Validator {
    pub bls_pub_key: Vec<u8>,
    pub pub_key: Vec<u8>,
    pub address: [u8; 20],
    pub propose_weight: u32,
    pub vote_weight: u32,
}

/// A validator record as the metadata encoding lays it out: byte strings
/// whose lengths are not yet checked.
#[derive(Debug, Clone, PartialEq, Eq)]
pub struct RawValidator {
    pub bls_pub_key: Vec<u8>,
    pub pub_key: Vec<u8>,
    pub address: Vec<u8>,
    pub propose_weight: Vec<u8>,
    pub vote_weight: Vec<u8>,
}

/// The little-endian value of four bytes.
pub open spec fn le_value(b: Seq<u8>) -> int {
    b[0] as int + 256 * (b[1] as int) + 65536 * (b[2] as int) + 16777216 * (b[3] as int)
}

/// A raw record can be read: a 20-byte address and two 4-byte weights.
pub open spec fn raw_well_formed(r: RawValidator) -> bool {
    r.address@.len() == 20 && r.propose_weight@.len() == 4 && r.vote_weight@.len() == 4
}

/// `v` is what the raw record `r` reads as.
pub open spec fn read_as(r: RawValidator, v: Validator) -> bool {
    &&& v.bls_pub_key@ == r.bls_pub_key@
    &&& v.pub_key@ == r.pub_key@
    &&& v.address@ == r.address@
    &&& v.propose_weight as int == le_value(r.propose_weight@)
    &&& v.vote_weight as int == le_value(r.vote_weight@)
}

/// Every raw record can be read.
pub open spec fn records_ok(raws: Seq<RawValidator>) -> bool {
    forall|i: int| 0 <= i < raws.len() ==> raw_well_formed(#[trigger] raws[i])
}

/// `vs` is what the raw records read as, one for one and in order.
pub open spec fn reads_all(raws: Seq<RawValidator>, vs: Seq<Validator>) -> bool {
    vs.len() == raws.len() && forall|i: int| 0 <= i < raws.len() ==> read_as(#[trigger] raws[i], vs[i])
}

/// Reads four bytes as a little-endian `u32`.
pub fn u32_from_le(b: &Vec<u8>) -> (r: u32)
    requires
        b@.len() == 4,
    ensures
        r as int == le_value(b@),
{
    let b0 = b[0] as u32;
    let b1 = b[1] as u32;
    let b2 = b[2] as u32;
    let b3 = b[3] as u32;
    assert(b0 + 256 * b1 + 65536 * b2 + 16777216 * b3 <= 0xffff_ffff) by (nonlinear_arith)
        requires
            b0 <= 255,
            b1 <= 255,
            b2 <= 255,
            b3 <= 255,
    ;
    b0 + 256 * b1 + 65536 * b2 + 16777216 * b3
}

/// Reads one validator record.
pub fn validator_from_raw(raw: &RawValidator) -> (r: Result<Validator, Error>)
    ensures
        raw_well_formed(*raw) <==> r.is_ok(),
        r matches Ok(v) ==> read_as(*raw, v),
        r matches Err(e) ==> e == Error::MetadataSerde,
{
    if raw.address.len() != 20 || raw.propose_weight.len() != 4 || raw.vote_weight.len() != 4 {
        return Err(Error::MetadataSerde);
    }
    let mut address = [0u8; 20];
    let mut i: usize = 0;
    while i < 20
        invariant
            0 <= i <= 20,
            raw.address@.len() == 20,
            forall|j: int| 0 <= j < i ==> address@[j] == raw.address@[j],
        decreases 20 - i,
    {
        address.set(i, raw.address[i]);
        i = i + 1;
    }
    assert(address@ =~= raw.address@);
    Ok(Validator {
        bls_pub_key: raw.bls_pub_key.clone(),
        pub_key: raw.pub_key.clone(),
        address,
        propose_weight: u32_from_le(&raw.propose_weight),
        vote_weight: u32_from_le(&raw.vote_weight),
    })
}

/// Reads every record, in order; fails on the first that cannot be read.
pub fn validators_from_raw(raws: &Vec<RawValidator>) -> (r: Result<Vec<Validator>, Error>)
    ensures
        r.is_ok() <==> records_ok(raws@),
        r matches Ok(vs) ==> reads_all(raws@, vs@),
        r matches Err(e) ==> e == Error::MetadataSerde,
{
    let mut out: Vec<Validator> = Vec::new();
    let mut i: usize = 0;
    while i < raws.len()
        invariant
            0 <= i <= raws@.len(),
            out@.len() == i,
            forall|j: int| 0 <= j < i ==> raw_well_formed(#[trigger] raws@[j]),
            forall|j: int| 0 <= j < i ==> read_as(#[trigger] raws@[j], out@[j]),
        decreases raws@.len() - i,
    {
        match validator_from_raw(&raws[i]) {
            Ok(v) => out.push(v),
            Err(e) => return Err(e),
        }
        i = i + 1;
    }
    Ok(out)
}

} // verus!
