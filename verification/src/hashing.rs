//! Trusted access to the cryptographic hash functions the ledger's
//! content-addressing relies on.
//!
//! The digests themselves are not restated here: each is given a name (an
//! uninterpreted function of the input bytes), and everything the ledger
//! proves about identifiers goes through those names plus the injectivity of
//! the canonical encoding (see `encode`).

use vstd::prelude::*;

verus! {

/// The BLAKE2b-256 digest of a byte string.
pub uninterp spec fn blake2_of(data: Seq<u8>) -> Seq<u8>;

/// The SHA-256 digest of a byte string.
pub uninterp spec fn sha2_of(data: Seq<u8>) -> Seq<u8>;

/// The Keccak-256 digest of a byte string.
pub uninterp spec fn keccak_of(data: Seq<u8>) -> Seq<u8>;

/// Relies on sp_crypto_hashing::blake2_256: a pure function of the input
/// bytes returning a 32-byte digest.
#[verifier::external_body]
pub(crate) fn blake2_256(data: &Vec<u8>) -> (r: Vec<u8>)
    ensures
        r@ == blake2_of(data@),
        r@.len() == 32,
{
    sp_crypto_hashing::blake2_256(data.as_slice()).to_vec()
}

/// Relies on sp_crypto_hashing::sha2_256: a pure function of the input bytes
/// returning a 32-byte digest.
#[verifier::external_body]
pub(crate) fn sha2_256(data: &Vec<u8>) -> (r: Vec<u8>)
    ensures
        r@ == sha2_of(data@),
        r@.len() == 32,
{
    sp_crypto_hashing::sha2_256(data.as_slice()).to_vec()
}

/// Relies on sp_crypto_hashing::keccak_256: a pure function of the input
/// bytes returning a 32-byte digest.
#[verifier::external_body]
pub(crate) fn keccak_256(data: &Vec<u8>) -> (r: Vec<u8>)
    ensures
        r@ == keccak_of(data@),
        r@.len() == 32,
{
    sp_crypto_hashing::keccak_256(data.as_slice()).to_vec()
}

} // verus!
