//! sr25519-style Schnorr signatures over Ristretto, hierarchical key
//! derivation (hard and soft), and a transcript-based VRF.
//!
//! The group and hash primitives come from the `schnorrkel` and `merlin`
//! crates; this crate verifies the protocol wiring around them: input
//! validation, error classification, transcript assembly, and the
//! relationships among signing, verification and derivation.

use vstd::prelude::*;

mod backend;
mod derive;
mod error;
mod keys;
mod sig;
mod transcript;
mod vrf;

pub use error::Error;
pub use keys::{
    consistent_keypair_bytes, is_public_of, keypair_from_seed, keypair_from_seed_deterministic,
    keypair_from_seed_spec, public_from_bytes, public_part, secret_from_bytes, secret_part,
    wf_keypair_bytes, wf_public_bytes, wf_secret_bytes, PublicKey, SecretKey,
};
pub use derive::{
    derive_err_spec, derive_hard_spec, derive_keypair_hard, derive_keypair_soft,
    derive_pubkey_soft, derive_pubkey_soft_spec, soft_derivation_homomorphism, CHAIN_CODE_LENGTH,
};
pub use sig::{
    sign, sign_err_spec, signed_message_verifies, valid_signature, verify, verify_spec,
};
pub use transcript::{
    build_transcript, byte_seqs, entry_count, interleaved, transcript_view, TranscriptData,
};
pub use vrf::{
    vrf_output_deterministic, vrf_roundtrip, vrf_sign, vrf_sign_err_spec, vrf_signed, vrf_verify,
    vrf_verify_spec, VRF_RESULT_LENGTH,
};

verus! {

/// The fixed protocol context under which messages are signed.
pub open spec fn signing_context() -> Seq<u8> {
    // the bytes of "substrate"
    seq![115u8, 117u8, 98u8, 115u8, 116u8, 114u8, 97u8, 116u8, 101u8]
}

/// Executable copy of the signing context bytes.
pub fn signing_context_bytes() -> (r: Vec<u8>)
    ensures
        r@ == signing_context(),
{
    let v: Vec<u8> = vec![115u8, 117u8, 98u8, 115u8, 116u8, 114u8, 97u8, 116u8, 101u8];
    proof {
        assert(v@ =~= signing_context());
    }
    v
}

} // verus!
