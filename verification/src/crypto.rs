//! Trusted access to the ECDSA primitives the registry and the detached
//! borrower signature rely on.  Each result is deterministic in its
//! arguments and is given a name; the registry's logic is verified against
//! those names.

use vstd::prelude::*;

verus! {

/// The compressed secp256k1 public key recovered from a 65-byte recoverable
/// signature and a 32-byte message digest, if recovery succeeds.
pub uninterp spec fn recovered_key_of(sig: Seq<u8>, msg: Seq<u8>) -> Option<Seq<u8>>;

/// The 64 coordinate bytes of a compressed secp256k1 public key, if it is a
/// valid curve point.
pub uninterp spec fn decompressed_key_of(key: Seq<u8>) -> Option<Seq<u8>>;

/// Whether a 65-byte recoverable signature over a message checks out
/// against a 33-byte compressed public key.
pub uninterp spec fn ecdsa_verifies(sig: Seq<u8>, msg: Seq<u8>, key: Seq<u8>) -> bool;

/// Relies on sp_core::ecdsa::Signature::recover_prehashed: deterministic
/// ECDSA public-key recovery over secp256k1, returning the 33-byte
/// compressed key.
#[verifier::external_body]
pub(crate) fn ecdsa_recover_compressed(sig: &Vec<u8>, msg: &Vec<u8>) -> (r: Option<Vec<u8>>)
    requires
        sig@.len() == 65,
        msg@.len() == 32,
    ensures
        match r {
            Some(k) => recovered_key_of(sig@, msg@) == Some(k@) && k@.len() == 33,
            None => recovered_key_of(sig@, msg@) is None,
        },
{
    let mut s = [0u8; 65];
    s.copy_from_slice(sig.as_slice());
    let mut m = [0u8; 32];
    m.copy_from_slice(msg.as_slice());
    let signature = sp_core::ecdsa::Signature::from_raw(s);
    signature.recover_prehashed(&m).map(|p: sp_core::ecdsa::Public| <[u8; 33]>::from(p).to_vec())
}

/// Relies on secp256k1::PublicKey::{from_slice, serialize_uncompressed}:
/// decompressing a 33-byte compressed public key to its 64 coordinate bytes
/// (the uncompressed form without its leading tag byte).
#[verifier::external_body]
pub(crate) fn secp256k1_decompress(key: &Vec<u8>) -> (r: Option<Vec<u8>>)
    requires
        key@.len() == 33,
    ensures
        match r {
            Some(u) => decompressed_key_of(key@) == Some(u@) && u@.len() == 64,
            None => decompressed_key_of(key@) is None,
        },
{
    match secp256k1::PublicKey::from_slice(key.as_slice()) {
        Ok(p) => Some(p.serialize_uncompressed()[1..].to_vec()),
        Err(_) => None,
    }
}

/// Relies on sp_core::ecdsa's `Pair::verify` (trait sp_core::crypto::Pair):
/// a deterministic signature check by key recovery over the blake2 digest
/// of the message.
#[verifier::external_body]
pub(crate) fn ecdsa_verify(sig: &Vec<u8>, msg: &Vec<u8>, key: &Vec<u8>) -> (r: bool)
    requires
        sig@.len() == 65,
        key@.len() == 33,
    ensures
        r == ecdsa_verifies(sig@, msg@, key@),
{
    let mut s = [0u8; 65];
    s.copy_from_slice(sig.as_slice());
    let mut k = [0u8; 33];
    k.copy_from_slice(key.as_slice());
    let signature = sp_core::ecdsa::Signature::from_raw(s);
    let public = sp_core::ecdsa::Public::from_raw(k);
    <sp_core::ecdsa::Pair as sp_core::crypto::Pair>::verify(&signature, msg.as_slice(), &public)
}

} // verus!
