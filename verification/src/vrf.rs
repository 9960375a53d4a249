//! The VRF engine: a pseudorandom output bound to a transcript and a
//! key, with a non-interactive proof of correct computation.
//!
//! The output is the deterministic image of the transcript-derived
//! base point under the secret scalar; the proof's scalars mix in the
//! process RNG, so two proofs over the same inputs may differ while
//! binding the same output. Signing returns the 32-byte output and the
//! 64-byte proof concatenated, both widths fixed by the protocol.

use vstd::prelude::*;
use vstd::slice::slice_subrange;

use crate::backend::{
    identity_point_bytes, point_check, point_decodes, secret_check, secret_decodes,
    secret_to_public, vrf_accepts, vrf_output, vrf_proof_check, vrf_proof_decodes, vrf_sign_bytes,
    vrf_verify_bytes,
};
use crate::error::Error;
use crate::keys::is_public_of;
use crate::transcript::{build_transcript, transcript_view, TranscriptData};

verus! {

/// The combined width of a VRF result: output, then proof.
pub const VRF_RESULT_LENGTH: usize = 96;

/// The error `vrf_sign` reports for each input, if any.
pub open spec fn vrf_sign_err_spec(skb: Seq<u8>, data: TranscriptData) -> Option<Error> {
    if data.domain_separation_label@.len() == 0 {
        Some(Error::InvalidLength)
    } else if skb.len() != 64 {
        Some(Error::InvalidLength)
    } else if !secret_decodes(skb) {
        Some(Error::InvalidEncoding)
    } else {
        None
    }
}

/// What `vrf_sign` guarantees of the output and proof it returns for a
/// secret key and transcript: the output is the deterministic VRF
/// image, both pieces decode, and — away from the group identity —
/// verification under the matching public key accepts them.
pub open spec fn vrf_signed(skb: Seq<u8>, data: TranscriptData, out: Seq<u8>, proof: Seq<u8>) -> bool {
    &&& out == vrf_output(skb, transcript_view(data))
    &&& out.len() == 32
    &&& point_decodes(out)
    &&& proof.len() == 64
    &&& vrf_proof_decodes(proof)
    &&& (out != identity_point_bytes() ==> vrf_accepts(
        secret_to_public(skb),
        transcript_view(data),
        out,
        proof,
    ))
}

/// Evaluates the VRF on a transcript and proves the evaluation.
///
/// Returns the 32-byte output followed by the 64-byte proof. Fails
/// with `InvalidLength` when the transcript lacks its domain label or
/// the secret key is not 64 bytes, and `InvalidEncoding` when the key
/// does not decode.
pub fn vrf_sign(sk: &[u8], data: &TranscriptData) -> (r: Result<Vec<u8>, Error>)
    ensures
        r is Ok <==> vrf_sign_err_spec(sk@, *data) is None,
        r matches Err(e) ==> Some(e) == vrf_sign_err_spec(sk@, *data),
        r matches Ok(v) ==> v@.len() == 96 && vrf_signed(
            sk@,
            *data,
            v@.subrange(0, 32),
            v@.subrange(32, 96),
        ),
{
    if data.domain_separation_label.len() == 0 {
        return Err(Error::InvalidLength);
    }
    if sk.len() != 64 {
        return Err(Error::InvalidLength);
    }
    if !secret_check(sk) {
        return Err(Error::InvalidEncoding);
    }
    let t = match build_transcript(data) {
        Ok(t) => t,
        Err(e) => {
            return Err(e);
        },
    };
    let (out, proof) = vrf_sign_bytes(sk, t);
    let mut v = out;
    let mut i: usize = 0;
    while i < proof.len()
        invariant
            i <= proof.len(),
            v@ == vrf_output(sk@, transcript_view(*data)) + proof@.subrange(0, i as int),
        decreases proof@.len() - i,
    {
        v.push(proof[i]);
        proof {
            assert(v@ =~= vrf_output(sk@, transcript_view(*data)) + proof@.subrange(
                0,
                i as int + 1,
            ));
        }
        i = i + 1;
    }
    proof {
        assert(proof@.subrange(0, proof@.len() as int) =~= proof@);
        assert(v@.subrange(0, 32) =~= vrf_output(sk@, transcript_view(*data)));
        assert(v@.subrange(32, 96) =~= proof@);
    }
    Ok(v)
}

/// What `vrf_verify` returns for each input: length errors for
/// wrong-sized buffers, encoding errors for undecodable ones, then the
/// outcome of the proof check — `VerificationFailed` is the normal
/// "proof does not hold" result, never conflated with malformed input.
pub open spec fn vrf_verify_spec(
    pkb: Seq<u8>,
    data: TranscriptData,
    out: Seq<u8>,
    proof: Seq<u8>,
) -> Result<(), Error> {
    if data.domain_separation_label@.len() == 0 {
        Err(Error::InvalidLength)
    } else if pkb.len() != 32 || out.len() != 32 || proof.len() != 64 {
        Err(Error::InvalidLength)
    } else if !point_decodes(pkb) || !point_decodes(out) || !vrf_proof_decodes(proof) {
        Err(Error::InvalidEncoding)
    } else if vrf_accepts(pkb, transcript_view(data), out, proof) {
        Ok(())
    } else {
        Err(Error::VerificationFailed)
    }
}

/// Checks a VRF output and proof against a public key and transcript.
pub fn vrf_verify(pk: &[u8], data: &TranscriptData, output: &[u8], proof: &[u8]) -> (r: Result<
    (),
    Error,
>)
    ensures
        r == vrf_verify_spec(pk@, *data, output@, proof@),
{
    if data.domain_separation_label.len() == 0 {
        return Err(Error::InvalidLength);
    }
    if pk.len() != 32 || output.len() != 32 || proof.len() != 64 {
        return Err(Error::InvalidLength);
    }
    if !point_check(pk) || !point_check(output) || !vrf_proof_check(proof) {
        return Err(Error::InvalidEncoding);
    }
    let t = match build_transcript(data) {
        Ok(t) => t,
        Err(e) => {
            return Err(e);
        },
    };
    if vrf_verify_bytes(pk, t, output, proof) {
        Ok(())
    } else {
        Err(Error::VerificationFailed)
    }
}

/// VRF soundness: an output and proof that `vrf_sign` produced are
/// accepted by `vrf_verify` under the matching well-formed public key,
/// for every output other than the group identity encoding (an output
/// the verifier rejects by design; it arises only from the zero
/// scalar).
pub proof fn vrf_roundtrip(
    skb: Seq<u8>,
    pkb: Seq<u8>,
    data: TranscriptData,
    out: Seq<u8>,
    proof: Seq<u8>,
)
    requires
        is_public_of(pkb, skb),
        crate::wf_public_bytes(pkb),
        data.domain_separation_label@.len() > 0,
        vrf_signed(skb, data, out, proof),
        out != identity_point_bytes(),
    ensures
        vrf_verify_spec(pkb, data, out, proof) == Ok::<(), Error>(()),
{
}

/// VRF output determinism: two evaluations over the same secret key
/// and transcript bind the same output, whatever their proofs.
pub proof fn vrf_output_deterministic(
    skb: Seq<u8>,
    data: TranscriptData,
    out1: Seq<u8>,
    proof1: Seq<u8>,
    out2: Seq<u8>,
    proof2: Seq<u8>,
)
    requires
        vrf_signed(skb, data, out1, proof1),
        vrf_signed(skb, data, out2, proof2),
    ensures
        out1 == out2,
{
}

} // verus!
