use k8s_basic_auth_translator::pki::{Pki, TrustMaterial, VerificationError};

fn material(seed: u8) -> TrustMaterial {
    TrustMaterial {
        ca_certificate: vec![seed, 2, 3, 4, 5, 6, 7, 8],
        local_certificate: vec![9, 9, 9],
        local_private_key: vec![7, 7, 7],
    }
}

fn engine(lifetime: u64) -> Pki {
    Pki::new(material(1), lifetime)
}

#[test]
fn mint_verify_round_trip() {
    let pki = engine(60);
    let token = pki.mint("alice", 1000);
    assert_eq!(pki.verify(&token, 1000), Ok("alice".to_string()));
    assert_eq!(pki.verify(&token, 1060), Ok("alice".to_string()));
}

#[test]
fn round_trip_preserves_unusual_subjects() {
    let pki = engine(60);
    for subject in ["", "a.b.c", "emil:secret", "Grüße", "x-wirepact-identity"] {
        let token = pki.mint(subject, 500);
        assert_eq!(pki.verify(&token, 500), Ok(subject.to_string()));
    }
}

#[test]
fn expired_token_reports_expired() {
    let pki = engine(10);
    let token = pki.mint("alice", 100);
    assert_eq!(pki.verify(&token, 110), Ok("alice".to_string()));
    assert_eq!(pki.verify(&token, 111), Err(VerificationError::Expired));
    assert_eq!(pki.verify(&token, 20_000), Err(VerificationError::Expired));
}

#[test]
fn token_of_another_authority_is_rejected() {
    let minter = Pki::new(material(1), 60);
    let other = Pki::new(material(2), 60);
    let token = minter.mint("alice", 1000);
    assert_eq!(other.verify(&token, 1000), Err(VerificationError::SignatureInvalid));
}

#[test]
fn malformed_tokens_are_rejected() {
    let pki = engine(60);
    for text in [
        "",
        "alice",
        "0000000000000000",
        "000000000000000g0000000000000000YWxpY2U=",
        "00000000000003e8zzzzzzzzzzzzzzzzYWxpY2U=",
        "00000000000003e80000000000000000!!!not-base64!!!",
    ] {
        assert_eq!(pki.verify(text, 0), Err(VerificationError::Malformed), "{}", text);
    }
}

#[test]
fn tampered_subject_invalidates_signature() {
    let pki = engine(60);
    let token = pki.mint("alice", 1000);
    // Swap the subject part for the encoding of another name.
    let tampered = format!("{}{}", &token[..32], "bWFsbG9yeQ==");
    assert_eq!(pki.verify(&tampered, 1000), Err(VerificationError::SignatureInvalid));
}

#[test]
fn minting_is_deterministic() {
    let pki = engine(60);
    assert_eq!(pki.mint("alice", 1000), pki.mint("alice", 1000));
}

#[test]
fn expiry_saturates_at_the_maximum_instant() {
    let pki = engine(u64::MAX);
    let token = pki.mint("alice", 5);
    assert_eq!(pki.verify(&token, u64::MAX), Ok("alice".to_string()));
}

#[test]
fn token_carries_hex_expiry_prefix() {
    let pki = engine(0x10);
    let token = pki.mint("alice", 0x3e8);
    assert_eq!(&token[..16], "00000000000003f8");
}
