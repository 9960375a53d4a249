//! The derivation engine: hard and soft hierarchical key derivation.
//!
//! Hard derivation hashes the parent's secret scalar together with the
//! chain code into a fresh mini-seed and expands it; its result is a
//! function of secret material alone, so nothing about the child can
//! be recomputed from the parent's public key — the algebraic link is
//! severed. Soft derivation offsets the parent by a scalar derived
//! from (public key, chain code); the same offset can be applied to a
//! public key alone, and the two paths agree on the child public key.

use vstd::prelude::*;
use vstd::slice::slice_subrange;

use crate::backend::{
    expand_keypair, expand_seed, hard_derive_mini, hard_derive_seed, point_check, point_decodes,
    secret_check, soft_derive_pair, soft_derive_public, soft_derive_pubkey,
};
use crate::error::Error;
use crate::keys::{
    consistent_keypair_bytes, public_part, secret_part, wf_keypair_bytes,
};

verus! {

/// The length every chain code must have.
pub const CHAIN_CODE_LENGTH: usize = 32;

/// The input validation shared by both keypair derivations: which
/// error, if any, a 96-byte parent pair and a chain code are rejected
/// with.
pub open spec fn derive_err_spec(pair: Seq<u8>, cc: Seq<u8>) -> Option<Error> {
    if pair.len() != 96 {
        Some(Error::InvalidLength)
    } else if cc.len() != 32 {
        Some(Error::ChainCodeError)
    } else if !wf_keypair_bytes(pair) {
        Some(Error::InvalidEncoding)
    } else {
        None
    }
}

/// What `derive_keypair_hard` returns for each input.
pub open spec fn derive_hard_spec(pair: Seq<u8>, cc: Seq<u8>) -> Result<Seq<u8>, Error> {
    match derive_err_spec(pair, cc) {
        Some(e) => Err(e),
        None => Ok(expand_keypair(hard_derive_mini(secret_part(pair), cc))),
    }
}

/// Hard derivation: mixes the parent secret and the chain code through
/// a one-way transcript hash into a new mini-seed, then expands it.
///
/// Deterministic in (parent pair, chain code); requires secret
/// material and forgets the parent — the child depends on the parent
/// only through the hash of its secret scalar. Fails with
/// `InvalidLength` on a parent that is not 96 bytes, `ChainCodeError`
/// on a chain code that is not 32 bytes, and `InvalidEncoding` on a
/// parent whose halves do not decode.
pub fn derive_keypair_hard(pair: &[u8], cc: &[u8]) -> (r: Result<Vec<u8>, Error>)
    ensures
        match r {
            Ok(v) => derive_hard_spec(pair@, cc@) == Ok::<Seq<u8>, Error>(v@)
                && consistent_keypair_bytes(v@),
            Err(e) => derive_hard_spec(pair@, cc@) == Err::<Seq<u8>, Error>(e),
        },
{
    if pair.len() != 96 {
        return Err(Error::InvalidLength);
    }
    if cc.len() != CHAIN_CODE_LENGTH {
        return Err(Error::ChainCodeError);
    }
    let sk_half = slice_subrange(pair, 0, 64);
    let pk_half = slice_subrange(pair, 64, 96);
    if !secret_check(sk_half) || !point_check(pk_half) {
        return Err(Error::InvalidEncoding);
    }
    let mini = hard_derive_seed(pair, cc);
    let child = expand_seed(mini.as_slice());
    Ok(child)
}

/// Soft derivation of a keypair: offsets the parent secret scalar by a
/// value derived from (parent public key, chain code).
///
/// The child's nonce seed mixes in the process RNG, so the child's
/// bytes are not pinned; what is pinned is that the child is a
/// consistent keypair and — when the parent is consistent — that its
/// public half equals the public-only soft derivation of the parent's
/// public half, the relation `soft_derivation_homomorphism` states.
/// Rejects inputs exactly as `derive_keypair_hard` does.
pub fn derive_keypair_soft(pair: &[u8], cc: &[u8]) -> (r: Result<Vec<u8>, Error>)
    ensures
        r is Ok <==> derive_err_spec(pair@, cc@) is None,
        r matches Err(e) ==> Some(e) == derive_err_spec(pair@, cc@),
        r matches Ok(v) ==> consistent_keypair_bytes(v@) && (consistent_keypair_bytes(pair@)
            ==> public_part(v@) == soft_derive_public(public_part(pair@), cc@)),
{
    if pair.len() != 96 {
        return Err(Error::InvalidLength);
    }
    if cc.len() != CHAIN_CODE_LENGTH {
        return Err(Error::ChainCodeError);
    }
    let sk_half = slice_subrange(pair, 0, 64);
    let pk_half = slice_subrange(pair, 64, 96);
    if !secret_check(sk_half) || !point_check(pk_half) {
        return Err(Error::InvalidEncoding);
    }
    let child = soft_derive_pair(pair, cc);
    Ok(child)
}

/// What `derive_pubkey_soft` returns for each input.
pub open spec fn derive_pubkey_soft_spec(pkb: Seq<u8>, cc: Seq<u8>) -> Result<Seq<u8>, Error> {
    if pkb.len() != 32 {
        Err(Error::InvalidLength)
    } else if cc.len() != 32 {
        Err(Error::ChainCodeError)
    } else if !point_decodes(pkb) {
        Err(Error::InvalidEncoding)
    } else {
        Ok(soft_derive_public(pkb, cc))
    }
}

/// Soft derivation from a public key alone: adds the transcript-derived
/// scalar offset times the basepoint to the parent point.
///
/// Deterministic in (parent public key, chain code), and needs no
/// secret — this is what makes the parent-child relation externally
/// verifiable. Fails with `InvalidLength` on a key that is not 32
/// bytes, `ChainCodeError` on a chain code that is not 32 bytes, and
/// `InvalidEncoding` on a key that does not decode.
pub fn derive_pubkey_soft(pubkey: &[u8], cc: &[u8]) -> (r: Result<Vec<u8>, Error>)
    ensures
        match r {
            Ok(v) => derive_pubkey_soft_spec(pubkey@, cc@) == Ok::<Seq<u8>, Error>(v@)
                && crate::wf_public_bytes(v@),
            Err(e) => derive_pubkey_soft_spec(pubkey@, cc@) == Err::<Seq<u8>, Error>(e),
        },
{
    if pubkey.len() != 32 {
        return Err(Error::InvalidLength);
    }
    if cc.len() != CHAIN_CODE_LENGTH {
        return Err(Error::ChainCodeError);
    }
    if !point_check(pubkey) {
        return Err(Error::InvalidEncoding);
    }
    let child = soft_derive_pubkey(pubkey, cc);
    Ok(child)
}

/// Soft-derivation homomorphism: deriving a keypair softly and taking
/// its public half agrees with deriving the parent's public half
/// directly — `derive_pubkey_soft(public_part(pair), cc)` returns
/// exactly the child keypair's public half.
pub proof fn soft_derivation_homomorphism(pair: Seq<u8>, cc: Seq<u8>, child: Seq<u8>)
    requires
        consistent_keypair_bytes(pair),
        cc.len() == 32,
        consistent_keypair_bytes(child),
        public_part(child) == soft_derive_public(public_part(pair), cc),
    ensures
        derive_pubkey_soft_spec(public_part(pair), cc) == Ok::<Seq<u8>, Error>(
            public_part(child),
        ),
{
}

} // verus!
