use optee_core::ecdsa::{
    generate_key_pair, sign_bytes_p256, sign_bytes_p384, verify_signature_p256,
    verify_signature_p384, EcdsaCurve, EcdsaError, EcdsaKeyPair,
};

#[test]
fn generated_key_pair_signs_and_verifies() {
    let kp = EcdsaKeyPair::new().unwrap();
    assert_eq!(kp.pub_key().len(), 65);
    assert_eq!(kp.pub_key()[0], 0x04);
    let sig = kp.sign(b"hello").unwrap();
    assert!(verify_signature_p256(kp.pub_key(), b"hello", &sig).is_ok());
    assert_eq!(
        verify_signature_p256(kp.pub_key(), b"hellp", &sig),
        Err(EcdsaError::InvalidSignature)
    );
    let again = EcdsaKeyPair::from_bytes(kp.prv_key(), EcdsaCurve::P256).unwrap();
    assert_eq!(again.pub_key(), kp.pub_key());
}

#[test]
fn generate_key_pair_gives_public_key_and_document() {
    let (pub_key, priv_key) = generate_key_pair().unwrap();
    assert_eq!(pub_key.len(), 65);
    assert_eq!(pub_key[0], 0x04);
    let kp = EcdsaKeyPair::from_bytes(&priv_key, EcdsaCurve::P256).unwrap();
    assert_eq!(kp.pub_key(), &pub_key[..]);
    let sig = sign_bytes_p256(&priv_key, b"payload").unwrap();
    assert!(verify_signature_p256(&pub_key, b"payload", &sig).is_ok());
}

#[test]
fn p384_keys() {
    let rng = ring::rand::SystemRandom::new();
    let doc = ring::signature::EcdsaKeyPair::generate_pkcs8(
        &ring::signature::ECDSA_P384_SHA384_ASN1_SIGNING,
        &rng,
    )
    .unwrap();
    let kp = EcdsaKeyPair::from_bytes(doc.as_ref(), EcdsaCurve::P384).unwrap();
    assert_eq!(kp.pub_key().len(), 97);
    assert_eq!(kp.pub_key()[0], 0x04);
    let sig = sign_bytes_p384(doc.as_ref(), b"cert").unwrap();
    assert!(verify_signature_p384(kp.pub_key(), b"cert", &sig).is_ok());
    assert!(verify_signature_p256(kp.pub_key(), b"cert", &sig).is_err());
    // A P-384 document is not a P-256 key.
    assert_eq!(
        EcdsaKeyPair::from_bytes(doc.as_ref(), EcdsaCurve::P256).unwrap_err(),
        EcdsaError::KeyRejected
    );
}

#[test]
fn malformed_documents_are_rejected() {
    assert_eq!(
        EcdsaKeyPair::from_bytes(&[1, 2, 3], EcdsaCurve::P256).unwrap_err(),
        EcdsaError::KeyRejected
    );
    assert_eq!(
        sign_bytes_p256(&[0u8; 10], b"x").unwrap_err(),
        EcdsaError::KeyRejected
    );
}
