//! Trusted boundary to the `schnorrkel` and `merlin` crates.
//!
//! Every group-arithmetic and hashing primitive of the protocol lives
//! behind a wrapper in this module. Results that are deterministic
//! functions of the wrapper's arguments are given uninterpreted names
//! (`expand_keypair`, `secret_to_public`, ...), so that the verified
//! layer can relate the operations to one another exactly; results that
//! involve the process RNG (a signature's commitment, a derived nonce
//! seed, a VRF proof) are only described by what holds of every outcome.

use vstd::prelude::*;

use schnorrkel::derive::{ChainCode, Derivation};
use schnorrkel::{ExpansionMode, Keypair, MiniSecretKey, PublicKey, SecretKey, Signature};

verus! {

/// A merlin transcript: a running, append-only hash state.
#[verifier::external_type_specification]
#[verifier::external_body]
pub struct ExTranscript(merlin::Transcript);

/// Whether `schnorrkel::PublicKey::from_bytes` accepts a 32-byte buffer,
/// i.e. whether it is a canonical compressed Ristretto point.
pub uninterp spec fn point_decodes(b: Seq<u8>) -> bool;

/// Whether `schnorrkel::SecretKey::from_ed25519_bytes` accepts a 64-byte
/// buffer (the scalar half, divided by the cofactor, must be canonical).
pub uninterp spec fn secret_decodes(b: Seq<u8>) -> bool;

/// Whether `schnorrkel::Signature::from_bytes` accepts a 64-byte buffer
/// (the marker bit must be set and the response scalar canonical).
pub uninterp spec fn sig_decodes(b: Seq<u8>) -> bool;

/// Whether `schnorrkel::vrf::VRFProof::from_bytes` accepts a 64-byte
/// buffer (both scalars must be canonical).
pub uninterp spec fn vrf_proof_decodes(b: Seq<u8>) -> bool;

/// The 96-byte half-ed25519 keypair that a 32-byte seed expands to
/// under `ExpansionMode::Ed25519` (deterministic key schedule).
pub uninterp spec fn expand_keypair(seed: Seq<u8>) -> Seq<u8>;

/// The compressed public key corresponding to a 64-byte secret key
/// encoding, as computed by `schnorrkel::SecretKey::to_public`.
pub uninterp spec fn secret_to_public(sk: Seq<u8>) -> Seq<u8>;

/// The 32-byte mini secret that hard derivation produces from a secret
/// key encoding and a chain code (a one-way transcript hash of the
/// secret scalar and the chain code).
pub uninterp spec fn hard_derive_mini(sk: Seq<u8>, cc: Seq<u8>) -> Seq<u8>;

/// The compressed public key that soft derivation produces from a
/// parent public key and a chain code: the parent point offset by a
/// transcript-derived scalar times the basepoint.
pub uninterp spec fn soft_derive_public(pk: Seq<u8>, cc: Seq<u8>) -> Seq<u8>;

/// Whether `schnorrkel::PublicKey::verify_simple` accepts a signature
/// over a message under a context and public key (the group equation).
pub uninterp spec fn signature_verifies(
    ctx: Seq<u8>,
    msg: Seq<u8>,
    pk: Seq<u8>,
    sig: Seq<u8>,
) -> bool;

/// The data a transcript's hash state is built from: the domain label
/// followed by the appended label and message byte strings, in order.
/// Merlin's state is a deterministic function of this sequence.
pub uninterp spec fn transcript_entries(t: merlin::Transcript) -> Seq<Seq<u8>>;

/// The 32-byte VRF output (compressed image of the transcript-derived
/// base point under the secret scalar); deterministic in the secret key
/// encoding and the transcript entries.
pub uninterp spec fn vrf_output(sk: Seq<u8>, tr: Seq<Seq<u8>>) -> Seq<u8>;

/// Whether `schnorrkel::PublicKey::vrf_verify` accepts an output and
/// proof for a public key and transcript.
pub uninterp spec fn vrf_accepts(
    pk: Seq<u8>,
    tr: Seq<Seq<u8>>,
    out: Seq<u8>,
    proof: Seq<u8>,
) -> bool;

/// The canonical encoding of the group identity: 32 zero bytes. A VRF
/// output equal to this is rejected by the verifier, so soundness of a
/// produced proof is stated away from it.
pub open spec fn identity_point_bytes() -> Seq<u8> {
    Seq::new(32, |i: int| 0u8)
}

/// Relies on `schnorrkel::PublicKey::from_bytes`: succeeds exactly when
/// the 32 bytes are a canonical compressed Ristretto point.
#[verifier::external_body]
pub(crate) fn point_check(b: &[u8]) -> (r: bool)
    requires
        b@.len() == 32,
    ensures
        r == point_decodes(b@),
{
    PublicKey::from_bytes(b).is_ok()
}

/// Relies on `schnorrkel::SecretKey::from_ed25519_bytes`: succeeds
/// exactly when the cofactor-divided scalar half is canonical.
#[verifier::external_body]
pub(crate) fn secret_check(b: &[u8]) -> (r: bool)
    requires
        b@.len() == 64,
    ensures
        r == secret_decodes(b@),
{
    SecretKey::from_ed25519_bytes(b).is_ok()
}

/// Relies on `schnorrkel::Signature::from_bytes`: succeeds exactly when
/// the marker bit is set and the response scalar is canonical.
#[verifier::external_body]
pub(crate) fn signature_check(b: &[u8]) -> (r: bool)
    requires
        b@.len() == 64,
    ensures
        r == sig_decodes(b@),
{
    Signature::from_bytes(b).is_ok()
}

/// Relies on `schnorrkel::vrf::VRFProof::from_bytes`: succeeds exactly
/// when both 32-byte halves are canonical scalars.
#[verifier::external_body]
pub(crate) fn vrf_proof_check(b: &[u8]) -> (r: bool)
    requires
        b@.len() == 64,
    ensures
        r == vrf_proof_decodes(b@),
{
    schnorrkel::vrf::VRFProof::from_bytes(b).is_ok()
}

/// Relies on `schnorrkel::MiniSecretKey::expand_to_keypair` with
/// `ExpansionMode::Ed25519`, encoded by `to_half_ed25519_bytes`: a
/// deterministic key schedule whose 96-byte result is a well-formed,
/// self-consistent keypair (secret half, then the matching public key).
#[verifier::external_body]
pub(crate) fn expand_seed(seed: &[u8]) -> (r: Vec<u8>)
    requires
        seed@.len() == 32,
    ensures
        r@ == expand_keypair(seed@),
        r@.len() == 96,
        secret_decodes(r@.subrange(0, 64)),
        point_decodes(r@.subrange(64, 96)),
        r@.subrange(64, 96) == secret_to_public(r@.subrange(0, 64)),
{
    let mini = MiniSecretKey::from_bytes(seed).unwrap();
    mini.expand_to_keypair(ExpansionMode::Ed25519).to_half_ed25519_bytes().to_vec()
}

/// Relies on `schnorrkel::SecretKey::sign_simple`: produces a 64-byte
/// signature that decodes, and that the verification equation accepts
/// whenever the given public key matches the secret key. The commitment
/// half mixes in the process RNG, so nothing more is stated of it.
#[verifier::external_body]
pub(crate) fn sign_bytes(ctx: &[u8], msg: &[u8], skb: &[u8], pkb: &[u8]) -> (r: Vec<u8>)
    requires
        skb@.len() == 64,
        secret_decodes(skb@),
        pkb@.len() == 32,
        point_decodes(pkb@),
    ensures
        r@.len() == 64,
        sig_decodes(r@),
        pkb@ == secret_to_public(skb@) ==> signature_verifies(ctx@, msg@, pkb@, r@),
{
    let sk = SecretKey::from_ed25519_bytes(skb).unwrap();
    let pk = PublicKey::from_bytes(pkb).unwrap();
    sk.sign_simple(ctx, msg, &pk).to_bytes().to_vec()
}

/// Relies on `schnorrkel::PublicKey::verify_simple`: recomputes the
/// challenge and checks the group equation, a deterministic function of
/// context, message, public key and signature bytes.
#[verifier::external_body]
pub(crate) fn verify_bytes(ctx: &[u8], msg: &[u8], pkb: &[u8], sigb: &[u8]) -> (r: bool)
    requires
        pkb@.len() == 32,
        point_decodes(pkb@),
        sigb@.len() == 64,
        sig_decodes(sigb@),
    ensures
        r == signature_verifies(ctx@, msg@, pkb@, sigb@),
{
    let pk = PublicKey::from_bytes(pkb).unwrap();
    let sig = Signature::from_bytes(sigb).unwrap();
    pk.verify_simple(ctx, msg, &sig).is_ok()
}

/// Relies on `schnorrkel::SecretKey::hard_derive_mini_secret_key` (with
/// an empty extra context): a one-way transcript hash of the secret
/// scalar and the chain code, deterministic in both.
#[verifier::external_body]
pub(crate) fn hard_derive_seed(pair: &[u8], cc: &[u8]) -> (r: Vec<u8>)
    requires
        pair@.len() == 96,
        secret_decodes(pair@.subrange(0, 64)),
        point_decodes(pair@.subrange(64, 96)),
        cc@.len() == 32,
    ensures
        r@ == hard_derive_mini(pair@.subrange(0, 64), cc@),
        r@.len() == 32,
{
    let kp = Keypair::from_half_ed25519_bytes(pair).unwrap();
    let mut a = [0u8; 32];
    a.copy_from_slice(cc);
    kp.secret.hard_derive_mini_secret_key(Some(ChainCode(a)), &[]).0.to_bytes().to_vec()
}

/// Relies on `schnorrkel::derive::Derivation::derived_key_simple` on a
/// `Keypair` (with an empty extra context): offsets the secret scalar by
/// a value derived from the stored public key and the chain code. The
/// result is always self-consistent; when the input pair is consistent,
/// its public half equals the public-only soft derivation. The derived
/// nonce seed mixes in the process RNG, so nothing is stated of it.
#[verifier::external_body]
pub(crate) fn soft_derive_pair(pair: &[u8], cc: &[u8]) -> (r: Vec<u8>)
    requires
        pair@.len() == 96,
        secret_decodes(pair@.subrange(0, 64)),
        point_decodes(pair@.subrange(64, 96)),
        cc@.len() == 32,
    ensures
        r@.len() == 96,
        secret_decodes(r@.subrange(0, 64)),
        point_decodes(r@.subrange(64, 96)),
        r@.subrange(64, 96) == secret_to_public(r@.subrange(0, 64)),
        pair@.subrange(64, 96) == secret_to_public(pair@.subrange(0, 64)) ==> r@.subrange(
            64,
            96,
        ) == soft_derive_public(pair@.subrange(64, 96), cc@),
{
    let kp = Keypair::from_half_ed25519_bytes(pair).unwrap();
    let mut a = [0u8; 32];
    a.copy_from_slice(cc);
    kp.derived_key_simple(ChainCode(a), &[]).0.to_half_ed25519_bytes().to_vec()
}

/// Relies on `schnorrkel::derive::Derivation::derived_key_simple` on a
/// `PublicKey` (with an empty extra context): adds a transcript-derived
/// multiple of the basepoint, deterministic in the parent key and chain
/// code, and always a valid point.
#[verifier::external_body]
pub(crate) fn soft_derive_pubkey(pkb: &[u8], cc: &[u8]) -> (r: Vec<u8>)
    requires
        pkb@.len() == 32,
        point_decodes(pkb@),
        cc@.len() == 32,
    ensures
        r@ == soft_derive_public(pkb@, cc@),
        r@.len() == 32,
        point_decodes(r@),
{
    let pk = PublicKey::from_bytes(pkb).unwrap();
    let mut a = [0u8; 32];
    a.copy_from_slice(cc);
    pk.derived_key_simple(ChainCode(a), &[]).0.to_bytes().to_vec()
}

/// Relies on `merlin::Transcript::new`: a fresh hash state determined
/// by its domain-separation label.
#[verifier::external_body]
pub(crate) fn transcript_new(label: &[u8]) -> (t: merlin::Transcript)
    ensures
        transcript_entries(t) == seq![label@],
{
    merlin::Transcript::new(Box::leak(label.to_vec().into_boxed_slice()))
}

/// Relies on `merlin::Transcript::append_message`: absorbs one labelled
/// message into the hash state.
#[verifier::external_body]
pub(crate) fn transcript_append(t: &mut merlin::Transcript, label: &[u8], message: &[u8])
    ensures
        transcript_entries(*final(t)) == transcript_entries(*old(t)) + seq![label@, message@],
{
    t.append_message(Box::leak(label.to_vec().into_boxed_slice()), message)
}

/// Relies on `schnorrkel::Keypair::vrf_sign`: the output is the
/// deterministic VRF image of the transcript under the secret key; the
/// proof mixes in the process RNG, but always decodes, and is accepted
/// by VRF verification under the matching public key unless the output
/// is the group identity.
#[verifier::external_body]
pub(crate) fn vrf_sign_bytes(skb: &[u8], t: merlin::Transcript) -> (r: (Vec<u8>, Vec<u8>))
    requires
        skb@.len() == 64,
        secret_decodes(skb@),
    ensures
        r.0@ == vrf_output(skb@, transcript_entries(t)),
        r.0@.len() == 32,
        point_decodes(r.0@),
        r.1@.len() == 64,
        vrf_proof_decodes(r.1@),
        r.0@ != identity_point_bytes() ==> vrf_accepts(
            secret_to_public(skb@),
            transcript_entries(t),
            r.0@,
            r.1@,
        ),
{
    let sk = SecretKey::from_ed25519_bytes(skb).unwrap();
    let (io, proof, _) = sk.to_keypair().vrf_sign(t);
    (io.as_output_bytes().to_vec(), proof.to_bytes().to_vec())
}

/// Relies on `schnorrkel::PublicKey::vrf_verify`: recomputes the
/// transcript-derived base and challenge and checks the proof, a
/// deterministic function of its four byte inputs.
#[verifier::external_body]
pub(crate) fn vrf_verify_bytes(pkb: &[u8], t: merlin::Transcript, out: &[u8], proof: &[u8]) -> (r:
    bool)
    requires
        pkb@.len() == 32,
        point_decodes(pkb@),
        out@.len() == 32,
        point_decodes(out@),
        proof@.len() == 64,
        vrf_proof_decodes(proof@),
    ensures
        r == vrf_accepts(pkb@, transcript_entries(t), out@, proof@),
{
    let pk = PublicKey::from_bytes(pkb).unwrap();
    let o = schnorrkel::vrf::VRFPreOut::from_bytes(out).unwrap();
    let p = schnorrkel::vrf::VRFProof::from_bytes(proof).unwrap();
    pk.vrf_verify(t, &o, &p).is_ok()
}

} // verus!
