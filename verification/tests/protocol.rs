//! End-to-end exercises of the signature, derivation and VRF engines,
//! with the real group and hash primitives linked in.

use sr25519_core::{
    derive_keypair_hard, derive_keypair_soft, derive_pubkey_soft, keypair_from_seed,
    public_from_bytes, secret_from_bytes, sign, verify, vrf_sign, vrf_verify, Error,
    TranscriptData,
};

fn hex_bytes(s: &str) -> Vec<u8> {
    let chars: Vec<u32> = s.chars().map(|c| c.to_digit(16).expect("hex digit")).collect();
    assert!(chars.len() % 2 == 0);
    chars.chunks(2).map(|p| (p[0] * 16 + p[1]) as u8).collect()
}

/// A known 64-byte secret key encoding and its public key, taken from
/// the reference implementation's documentation.
fn known_secret() -> Vec<u8> {
    hex_bytes(
        "28b0ae221c6bb06856b287f60d7ea0d98552ea5a16db16956849aa371db3eb51\
         fd190cce74df356432b410bd64682309d6dedb27c76845daf388557cbac3ca34",
    )
}

fn known_public() -> Vec<u8> {
    hex_bytes("46ebddef8cd9bb167dc30878d7113b7e168e6f0646beffd77d69d39bad76b47a")
}

fn known_pair() -> Vec<u8> {
    let mut p = known_secret();
    p.extend_from_slice(&known_public());
    p
}

fn transcript(dsl: &[u8], entries: &[(&[u8], &[u8])]) -> TranscriptData {
    TranscriptData {
        domain_separation_label: vec![dsl.to_vec()],
        labels: entries.iter().map(|e| e.0.to_vec()).collect(),
        messages: entries.iter().map(|e| e.1.to_vec()).collect(),
    }
}

#[test]
fn keypair_from_seed_is_deterministic() {
    let seed = [7u8; 32];
    let a = keypair_from_seed(&seed).unwrap();
    let b = keypair_from_seed(&seed).unwrap();
    assert_eq!(a, b);
    assert_eq!(a.len(), 96);
}

#[test]
fn keypair_from_seed_rejects_wrong_length() {
    assert_eq!(keypair_from_seed(&[7u8; 31]), Err(Error::InvalidLength));
    assert_eq!(keypair_from_seed(&[7u8; 33]), Err(Error::InvalidLength));
    assert_eq!(keypair_from_seed(&[]), Err(Error::InvalidLength));
}

#[test]
fn public_from_bytes_rejects_wrong_length() {
    assert!(matches!(public_from_bytes(&[1u8; 31]), Err(Error::InvalidLength)));
    assert!(matches!(public_from_bytes(&[1u8; 33]), Err(Error::InvalidLength)));
}

#[test]
fn public_from_bytes_rejects_off_curve() {
    // Well-sized, but not a canonical compressed point.
    assert!(matches!(public_from_bytes(&[0xffu8; 32]), Err(Error::InvalidEncoding)));
}

#[test]
fn public_from_bytes_accepts_valid_point() {
    let pk = public_from_bytes(&known_public()).unwrap();
    assert_eq!(pk.to_bytes(), known_public());
}

#[test]
fn secret_from_bytes_validates() {
    assert!(matches!(secret_from_bytes(&[1u8; 63]), Err(Error::InvalidLength)));
    let mut bad = known_secret();
    for b in bad[..32].iter_mut() {
        *b = 0xff;
    }
    assert!(matches!(secret_from_bytes(&bad), Err(Error::InvalidEncoding)));
    let sk = secret_from_bytes(&known_secret()).unwrap();
    assert_eq!(sk.to_bytes(), known_secret());
}

#[test]
fn signed_message_verifies() {
    let pair = keypair_from_seed(&[42u8; 32]).unwrap();
    let sig = sign(b"hello world", &pair[..64], &pair[64..]).unwrap();
    assert_eq!(sig.len(), 64);
    assert_eq!(verify(&sig, b"hello world", &pair[64..]), Ok(true));
    assert_eq!(verify(&sig, b"hello worle", &pair[64..]), Ok(false));
}

#[test]
fn sign_rejects_malformed_keys() {
    let pair = keypair_from_seed(&[42u8; 32]).unwrap();
    assert_eq!(sign(b"m", &pair[..63], &pair[64..]), Err(Error::InvalidLength));
    assert_eq!(sign(b"m", &pair[..64], &pair[64..95]), Err(Error::InvalidLength));
    assert_eq!(sign(b"m", &pair[..64], &[0xffu8; 32]), Err(Error::InvalidEncoding));
}

#[test]
fn tampered_signature_fails_verification() {
    let pair = keypair_from_seed(&[3u8; 32]).unwrap();
    let sig = sign(b"payload", &pair[..64], &pair[64..]).unwrap();

    // Flip one bit of the commitment point.
    let mut t = sig.clone();
    t[0] ^= 1;
    assert_eq!(verify(&t, b"payload", &pair[64..]), Ok(false));

    // Flip one low bit of the response scalar.
    let mut t = sig.clone();
    t[32] ^= 1;
    assert_eq!(verify(&t, b"payload", &pair[64..]), Ok(false));

    // Clearing the marker bit makes the buffer undecodable instead.
    let mut t = sig.clone();
    t[63] ^= 0x80;
    assert_eq!(verify(&t, b"payload", &pair[64..]), Err(Error::InvalidEncoding));
}

#[test]
fn verify_rejects_malformed_inputs() {
    let pair = keypair_from_seed(&[3u8; 32]).unwrap();
    let sig = sign(b"payload", &pair[..64], &pair[64..]).unwrap();
    assert_eq!(verify(&sig[..63], b"payload", &pair[64..]), Err(Error::InvalidLength));
    assert_eq!(verify(&sig, b"payload", &pair[64..95]), Err(Error::InvalidLength));
    assert_eq!(verify(&sig, b"payload", &[0xffu8; 32]), Err(Error::InvalidEncoding));
}

#[test]
fn soft_derivation_commutes_with_public_half() {
    let pair = keypair_from_seed(&[9u8; 32]).unwrap();
    let cc = [0x11u8; sr25519_core::CHAIN_CODE_LENGTH];
    let child = derive_keypair_soft(&pair, &cc).unwrap();
    assert_eq!(child.len(), 96);
    let child_pk = derive_pubkey_soft(&pair[64..], &cc).unwrap();
    assert_eq!(&child[64..], &child_pk[..]);
    assert_ne!(&child[64..], &pair[64..]);
    // The derived keypair signs under its own public half.
    let sig = sign(b"derived", &child[..64], &child[64..]).unwrap();
    assert_eq!(verify(&sig, b"derived", &child_pk), Ok(true));
}

#[test]
fn hard_derivation_is_deterministic_and_unlinked() {
    let pair = keypair_from_seed(&[9u8; 32]).unwrap();
    let cc = [0x11u8; 32];
    let a = derive_keypair_hard(&pair, &cc).unwrap();
    let b = derive_keypair_hard(&pair, &cc).unwrap();
    assert_eq!(a, b);
    assert_eq!(a.len(), 96);
    // The hard child's public key is not the soft offset of the parent:
    // the soft formula applied to (parent public key, chain code) gives
    // something else entirely.
    let soft_pk = derive_pubkey_soft(&pair[64..], &cc).unwrap();
    assert_ne!(&a[64..], &soft_pk[..]);
    assert_ne!(&a[64..], &pair[64..]);
    let sig = sign(b"hard", &a[..64], &a[64..]).unwrap();
    assert_eq!(verify(&sig, b"hard", &a[64..]), Ok(true));
}

#[test]
fn derivation_rejects_malformed_inputs() {
    let pair = keypair_from_seed(&[9u8; 32]).unwrap();
    assert_eq!(derive_keypair_hard(&pair[..95], &[0u8; 32]), Err(Error::InvalidLength));
    assert_eq!(derive_keypair_hard(&pair, &[0u8; 31]), Err(Error::ChainCodeError));
    assert_eq!(derive_keypair_hard(&[0xffu8; 96], &[0u8; 32]), Err(Error::InvalidEncoding));
    assert_eq!(derive_keypair_soft(&pair[..95], &[0u8; 32]), Err(Error::InvalidLength));
    assert_eq!(derive_keypair_soft(&pair, &[0u8; 33]), Err(Error::ChainCodeError));
    assert_eq!(derive_keypair_soft(&[0xffu8; 96], &[0u8; 32]), Err(Error::InvalidEncoding));
    assert_eq!(derive_pubkey_soft(&pair[64..95], &[0u8; 32]), Err(Error::InvalidLength));
    assert_eq!(derive_pubkey_soft(&pair[64..], &[0u8; 31]), Err(Error::ChainCodeError));
    assert_eq!(derive_pubkey_soft(&[0xffu8; 32], &[0u8; 32]), Err(Error::InvalidEncoding));
}

#[test]
fn vrf_sign_output_verifies() {
    let pair = keypair_from_seed(&[5u8; 32]).unwrap();
    let data = transcript(b"vrf-test", &[(b"slot", b"12345")]);
    let out = vrf_sign(&pair[..64], &data).unwrap();
    assert_eq!(out.len(), sr25519_core::VRF_RESULT_LENGTH);
    assert_eq!(vrf_verify(&pair[64..], &data, &out[..32], &out[32..]), Ok(()));
}

#[test]
fn vrf_output_is_deterministic_per_transcript() {
    let pair = keypair_from_seed(&[5u8; 32]).unwrap();
    let data = transcript(b"vrf-test", &[(b"slot", b"12345")]);
    let a = vrf_sign(&pair[..64], &data).unwrap();
    let b = vrf_sign(&pair[..64], &data).unwrap();
    // Same output for the same transcript; the proof may differ.
    assert_eq!(&a[..32], &b[..32]);
}

#[test]
fn vrf_output_binds_the_transcript() {
    let pair = keypair_from_seed(&[5u8; 32]).unwrap();
    let d1 = transcript(b"vrf-test", &[(b"slot", b"12345")]);
    let d2 = transcript(b"vrf-test", &[(b"slot", b"12346")]);
    let a = vrf_sign(&pair[..64], &d1).unwrap();
    let b = vrf_sign(&pair[..64], &d2).unwrap();
    assert_ne!(&a[..32], &b[..32]);
}

#[test]
fn vrf_entries_pair_up_while_both_lists_last() {
    let pair = keypair_from_seed(&[5u8; 32]).unwrap();
    // A label without a matching message is not absorbed.
    let mut longer = transcript(b"vrf-test", &[(b"slot", b"12345")]);
    longer.labels.push(b"extra".to_vec());
    let trimmed = transcript(b"vrf-test", &[(b"slot", b"12345")]);
    let a = vrf_sign(&pair[..64], &longer).unwrap();
    let b = vrf_sign(&pair[..64], &trimmed).unwrap();
    assert_eq!(&a[..32], &b[..32]);
}

#[test]
fn vrf_verify_rejects_wrong_key_and_tampered_proof() {
    let pair = keypair_from_seed(&[5u8; 32]).unwrap();
    let other = keypair_from_seed(&[6u8; 32]).unwrap();
    let data = transcript(b"vrf-test", &[(b"slot", b"12345")]);
    let out = vrf_sign(&pair[..64], &data).unwrap();
    assert_eq!(
        vrf_verify(&other[64..], &data, &out[..32], &out[32..]),
        Err(Error::VerificationFailed)
    );
    let mut bad = out.clone();
    bad[32] ^= 1;
    assert_eq!(
        vrf_verify(&pair[64..], &data, &bad[..32], &bad[32..]),
        Err(Error::VerificationFailed)
    );
}

#[test]
fn vrf_rejects_malformed_inputs() {
    let pair = keypair_from_seed(&[5u8; 32]).unwrap();
    let data = transcript(b"vrf-test", &[(b"slot", b"12345")]);
    let out = vrf_sign(&pair[..64], &data).unwrap();
    let empty = TranscriptData {
        domain_separation_label: Vec::new(),
        labels: Vec::new(),
        messages: Vec::new(),
    };
    assert_eq!(vrf_sign(&pair[..64], &empty), Err(Error::InvalidLength));
    assert_eq!(vrf_sign(&pair[..63], &data), Err(Error::InvalidLength));
    assert_eq!(
        vrf_verify(&pair[64..], &empty, &out[..32], &out[32..]),
        Err(Error::InvalidLength)
    );
    assert_eq!(
        vrf_verify(&pair[64..], &data, &out[..31], &out[32..]),
        Err(Error::InvalidLength)
    );
    assert_eq!(
        vrf_verify(&pair[64..], &data, &out[..32], &out[32..95]),
        Err(Error::InvalidLength)
    );
    assert_eq!(
        vrf_verify(&[0xffu8; 32], &data, &out[..32], &out[32..]),
        Err(Error::InvalidEncoding)
    );
}

#[test]
fn known_secret_signs_under_known_public() {
    // The public key pinned for this secret by the reference
    // implementation must be the one signatures verify under.
    let pair = known_pair();
    let sig = sign(b"test", &pair[..64], &pair[64..]).unwrap();
    assert_eq!(verify(&sig, b"test", &pair[64..]), Ok(true));
    // The protocol marker bit of every signature is set.
    assert_eq!(sig[63] & 0x80, 0x80);
}

#[test]
fn error_messages_are_distinct() {
    let msgs = [
        Error::InvalidLength.message(),
        Error::InvalidEncoding.message(),
        Error::ExpansionFailure.message(),
        Error::VerificationFailed.message(),
        Error::ChainCodeError.message(),
    ];
    for (i, a) in msgs.iter().enumerate() {
        assert!(!a.is_empty());
        for b in msgs.iter().skip(i + 1) {
            assert_ne!(a, b);
        }
    }
}

#[test]
fn pinned_keypair_vector() {
    // The keypair the all-zero seed expands to, pinned against the
    // reference implementation of the key schedule.
    let pair = keypair_from_seed(&[0u8; 32]).unwrap();
    let expected = hex_bytes(
        "5046adc1dba838867b2bbbfdd0c3423e58b57970b5267a90f57960924a87f156\
         0a6a85eaa642dac835424b5d7c8d637c00408c7a73da672b7f498521420b6dd3\
         def12e42f3e487e9b14095aa8d5cc16a33491f1b50dadcf8811d1480f3fa8627",
    );
    assert_eq!(pair[0], 0x50);
    assert_eq!(pair, expected);
}

#[test]
fn pinned_vrf_output_vector() {
    // The VRF output of a fixed key and transcript, pinned against the
    // reference implementation.
    let pair = keypair_from_seed(&[0u8; 32]).unwrap();
    let data = transcript(b"vrf-test", &[(b"slot", b"12345")]);
    let out = vrf_sign(&pair[..64], &data).unwrap();
    let expected = hex_bytes("348a4eb0ebc6ebd18ba2a0d54727ce1b46f0a99f18071dc8340024a79502fb6e");
    assert_eq!(&out[..32], &expected[..]);
}

#[test]
fn pinned_hard_derivation_vector() {
    // The public key hard derivation produces from the known secret
    // and a fixed chain code, pinned against the reference
    // implementation.
    let child = derive_keypair_hard(&known_pair(), &[0x11u8; 32]).unwrap();
    let expected = hex_bytes("2a39265986ba4d9442ccae9de7d2e65a6e03109675715995e1c46cabbb77f64f");
    assert_eq!(&child[64..], &expected[..]);
}
