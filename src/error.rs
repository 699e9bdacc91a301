use vstd::prelude::*;

verus! {

/// Failure to build a light client from validator metadata.
#[derive(Debug, Clone, Copy, PartialEq, Eq, Structural)]
pub enum Error {
    MetadataSerde,
}

/// Why a proof of an object was rejected.
#[derive(Debug, Clone, Copy, PartialEq, Eq, Structural)]
pub enum VerifyError {
    /// The block or the aggregate proof bytes do not decode.
    DecodeFailure,
    /// Inclusion, quorum or signature check failed.
    InvalidReceiptProof,
}

} // verus!
