//! The signature engine: signing under the fixed protocol context and
//! verifying against it.
//!
//! Signing is randomized — the nonce mixes the secret nonce seed, the
//! message transcript and the process RNG — so no two signatures need
//! be byte-identical; what is pinned down is that every signature
//! produced under a matching public key satisfies the verification
//! equation. Verification itself is a deterministic function of its
//! byte inputs, stated exactly by `verify_spec`.

use vstd::prelude::*;

use crate::backend::{
    point_check, point_decodes, secret_check, secret_decodes, secret_to_public, sig_decodes,
    sign_bytes, signature_check, signature_verifies, verify_bytes,
};
use crate::error::Error;
use crate::signing_context;

verus! {

/// A 64-byte signature that decodes and satisfies the verification
/// equation for `msg` under `pk` and the protocol context — what
/// `sign` guarantees of its output when the keys match.
pub open spec fn valid_signature(sig: Seq<u8>, msg: Seq<u8>, pk: Seq<u8>) -> bool {
    sig.len() == 64 && sig_decodes(sig) && signature_verifies(signing_context(), msg, pk, sig)
}

/// The error `sign` reports for each input, if any.
pub open spec fn sign_err_spec(skb: Seq<u8>, pkb: Seq<u8>) -> Option<Error> {
    if pkb.len() != 32 || skb.len() != 64 {
        Some(Error::InvalidLength)
    } else if !point_decodes(pkb) || !secret_decodes(skb) {
        Some(Error::InvalidEncoding)
    } else {
        None
    }
}

/// Signs a message under the fixed protocol context.
///
/// Succeeds exactly when both keys are well formed, classifying bad
/// inputs as `InvalidLength` or `InvalidEncoding`. When the public key
/// is the one belonging to the secret key, the returned 64 bytes are a
/// valid signature on the message under that key.
pub fn sign(message: &[u8], sk: &[u8], pubkey: &[u8]) -> (r: Result<Vec<u8>, Error>)
    ensures
        r is Ok <==> sign_err_spec(sk@, pubkey@) is None,
        r matches Err(e) ==> Some(e) == sign_err_spec(sk@, pubkey@),
        r matches Ok(s) ==> s@.len() == 64 && sig_decodes(s@) && (pubkey@ == secret_to_public(sk@)
            ==> valid_signature(s@, message@, pubkey@)),
{
    if pubkey.len() != 32 || sk.len() != 64 {
        return Err(Error::InvalidLength);
    }
    if !point_check(pubkey) || !secret_check(sk) {
        return Err(Error::InvalidEncoding);
    }
    let ctx = crate::signing_context_bytes();
    let s = sign_bytes(ctx.as_slice(), message, sk, pubkey);
    Ok(s)
}

/// What `verify` returns for each input: an error for malformed
/// buffers, otherwise the outcome of the verification equation.
pub open spec fn verify_spec(sigb: Seq<u8>, msg: Seq<u8>, pkb: Seq<u8>) -> Result<bool, Error> {
    if sigb.len() != 64 || pkb.len() != 32 {
        Err(Error::InvalidLength)
    } else if !sig_decodes(sigb) || !point_decodes(pkb) {
        Err(Error::InvalidEncoding)
    } else {
        Ok(signature_verifies(signing_context(), msg, pkb, sigb))
    }
}

/// Checks a signature on a message under the fixed protocol context.
///
/// A failing equation is the normal "invalid signature" outcome and
/// comes back as `Ok(false)`; only malformed buffers — a wrong length,
/// an undecodable signature or public key — are errors, so forged and
/// malformed inputs are never conflated.
pub fn verify(signature: &[u8], message: &[u8], public: &[u8]) -> (r: Result<bool, Error>)
    ensures
        r == verify_spec(signature@, message@, public@),
{
    if signature.len() != 64 || public.len() != 32 {
        return Err(Error::InvalidLength);
    }
    if !signature_check(signature) || !point_check(public) {
        return Err(Error::InvalidEncoding);
    }
    let ctx = crate::signing_context_bytes();
    Ok(verify_bytes(ctx.as_slice(), message, public, signature))
}

/// Signature correctness: a signature that `sign` produced under a
/// matching, well-formed public key is accepted by `verify`.
pub proof fn signed_message_verifies(sig: Seq<u8>, msg: Seq<u8>, pk: Seq<u8>)
    requires
        crate::wf_public_bytes(pk),
        valid_signature(sig, msg, pk),
    ensures
        verify_spec(sig, msg, pk) == Ok::<bool, Error>(true),
{
}

} // verus!
