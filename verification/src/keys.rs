//! Key material: validated public and secret keys, and expansion of a
//! 32-byte mini-seed into a 96-byte keypair encoding.
//!
//! A keypair travels as 96 bytes: a 64-byte ed25519-style secret half
//! (scalar, then nonce seed) followed by the 32-byte compressed public
//! key. The well-formedness predicates below are the invariants every
//! operation of the library demands of its key inputs.

use vstd::prelude::*;

use crate::backend::{
    expand_keypair, expand_seed, point_check, point_decodes, secret_check, secret_decodes,
    secret_to_public,
};
use crate::error::Error;

verus! {

/// A 32-byte buffer that decodes as a compressed Ristretto point.
pub open spec fn wf_public_bytes(b: Seq<u8>) -> bool {
    b.len() == 32 && point_decodes(b)
}

/// A 64-byte buffer that decodes as an ed25519-style secret key.
pub open spec fn wf_secret_bytes(b: Seq<u8>) -> bool {
    b.len() == 64 && secret_decodes(b)
}

/// The secret half of a 96-byte keypair encoding.
pub open spec fn secret_part(pair: Seq<u8>) -> Seq<u8> {
    pair.subrange(0, 64)
}

/// The public half of a 96-byte keypair encoding.
pub open spec fn public_part(pair: Seq<u8>) -> Seq<u8> {
    pair.subrange(64, 96)
}

/// A 96-byte keypair encoding whose halves both decode.
pub open spec fn wf_keypair_bytes(pair: Seq<u8>) -> bool {
    pair.len() == 96 && secret_decodes(secret_part(pair)) && point_decodes(public_part(pair))
}

/// Whether `pkb` is the public key that the secret encoding `skb`
/// determines.
pub open spec fn is_public_of(pkb: Seq<u8>, skb: Seq<u8>) -> bool {
    pkb == secret_to_public(skb)
}

/// A well-formed keypair whose public half is the public key of its
/// secret half — the self-consistency every keypair the library
/// produces enjoys.
pub open spec fn consistent_keypair_bytes(pair: Seq<u8>) -> bool {
    wf_keypair_bytes(pair) && is_public_of(public_part(pair), secret_part(pair))
}

/// A validated public key: 32 bytes known to decode as a point.
pub struct PublicKey {
    bytes: Vec<u8>,
}

impl PublicKey {
    /// The compressed-point bytes this key wraps.
    pub closed spec fn view(&self) -> Seq<u8> {
        self.bytes@
    }

    /// The invariant `public_from_bytes` establishes.
    pub open spec fn wf(&self) -> bool {
        wf_public_bytes(self@)
    }

    /// The key's 32-byte compressed encoding.
    pub fn to_bytes(&self) -> (r: Vec<u8>)
        ensures
            r@ == self@,
    {
        self.bytes.clone()
    }
}

/// A validated secret key: 64 bytes known to decode (scalar, then
/// nonce seed). Never derivable from public material.
pub struct SecretKey {
    bytes: Vec<u8>,
}

impl SecretKey {
    /// The ed25519-style encoding this key wraps.
    pub closed spec fn view(&self) -> Seq<u8> {
        self.bytes@
    }

    /// The invariant `secret_from_bytes` establishes.
    pub open spec fn wf(&self) -> bool {
        wf_secret_bytes(self@)
    }

    /// The key's 64-byte encoding.
    pub fn to_bytes(&self) -> (r: Vec<u8>)
        ensures
            r@ == self@,
    {
        self.bytes.clone()
    }
}

/// Validates and wraps a compressed public key.
///
/// Returns `InvalidLength` exactly on buffers that are not 32 bytes,
/// and `InvalidEncoding` exactly on 32-byte buffers that are not a
/// canonical compressed point.
pub fn public_from_bytes(b: &[u8]) -> (r: Result<PublicKey, Error>)
    ensures
        r is Ok <==> wf_public_bytes(b@),
        r matches Ok(pk) ==> pk@ == b@ && pk.wf(),
        b@.len() != 32 ==> r == Err::<PublicKey, Error>(Error::InvalidLength),
        b@.len() == 32 && !point_decodes(b@) ==> r == Err::<PublicKey, Error>(
            Error::InvalidEncoding,
        ),
{
    if b.len() != 32 {
        return Err(Error::InvalidLength);
    }
    if !point_check(b) {
        return Err(Error::InvalidEncoding);
    }
    Ok(PublicKey { bytes: vstd::slice::slice_to_vec(b) })
}

/// Validates and wraps an ed25519-style secret key encoding.
///
/// Returns `InvalidLength` exactly on buffers that are not 64 bytes,
/// and `InvalidEncoding` exactly on 64-byte buffers whose scalar half
/// does not decode.
pub fn secret_from_bytes(b: &[u8]) -> (r: Result<SecretKey, Error>)
    ensures
        r is Ok <==> wf_secret_bytes(b@),
        r matches Ok(sk) ==> sk@ == b@ && sk.wf(),
        b@.len() != 64 ==> r == Err::<SecretKey, Error>(Error::InvalidLength),
        b@.len() == 64 && !secret_decodes(b@) ==> r == Err::<SecretKey, Error>(
            Error::InvalidEncoding,
        ),
{
    if b.len() != 64 {
        return Err(Error::InvalidLength);
    }
    if !secret_check(b) {
        return Err(Error::InvalidEncoding);
    }
    Ok(SecretKey { bytes: vstd::slice::slice_to_vec(b) })
}

/// What `keypair_from_seed` returns for each input.
pub open spec fn keypair_from_seed_spec(seed: Seq<u8>) -> Result<Seq<u8>, Error> {
    if seed.len() != 32 {
        Err(Error::InvalidLength)
    } else {
        Ok(expand_keypair(seed))
    }
}

/// Expands a 32-byte mini-seed into a 96-byte keypair encoding by the
/// deterministic ed25519-compatible key schedule.
///
/// Fails with `InvalidLength` exactly when the seed is not 32 bytes;
/// the expansion itself never fails. The result is always a consistent
/// keypair: its public half is the public key of its secret half.
pub fn keypair_from_seed(seed: &[u8]) -> (r: Result<Vec<u8>, Error>)
    ensures
        match r {
            Ok(v) => keypair_from_seed_spec(seed@) == Ok::<Seq<u8>, Error>(v@)
                && consistent_keypair_bytes(v@),
            Err(e) => keypair_from_seed_spec(seed@) == Err::<Seq<u8>, Error>(e),
        },
{
    if seed.len() != 32 {
        return Err(Error::InvalidLength);
    }
    let pair = expand_seed(seed);
    Ok(pair)
}

/// Seed expansion is deterministic: two expansions of the same seed
/// yield byte-identical keypairs.
pub proof fn keypair_from_seed_deterministic(
    seed: Seq<u8>,
    r1: Result<Seq<u8>, Error>,
    r2: Result<Seq<u8>, Error>,
)
    requires
        r1 == keypair_from_seed_spec(seed),
        r2 == keypair_from_seed_spec(seed),
    ensures
        r1 == r2,
{
}

} // verus!
