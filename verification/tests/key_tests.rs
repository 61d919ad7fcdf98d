use optee_core::aead::{AeadError, AesGcm128Key};
use optee_core::attestation::{AttestationCertChain, AttestationReport};
use optee_core::rsa::{is_valid_rsa_key_size, RsaKeyObject};
use optee_core::ecdsa::verify_signature_p256;
use optee_core::key_utils::{
    create_backup_keypair, create_signing_keypair, load_backup_keypair, load_signing_keypair,
    RSA_KEY_SIZE,
};
use optee_core::tee_key::{
    export_public_key, EcdsaKeyPairBytes, ExportedPublicKey, KeyError, RsaKeyPair,
    RsaPrivateKey, RsaPublicKey, TeeKey, TeeKeyObject, TeeKeyUsage,
};

fn aes_key() -> AesGcm128Key {
    let key: Vec<u8> = (0u8..16).collect();
    let iv: Vec<u8> = (100u8..112).collect();
    AesGcm128Key::new(&key, &iv).unwrap()
}

#[test]
fn aes_gcm_encrypt_then_decrypt_gives_plaintext_back() {
    let key = aes_key();
    let plaintext = b"wallet data key".to_vec();
    let mut buf = plaintext.clone();
    let tag = key.encrypt(&mut buf).unwrap();
    assert_eq!(buf.len(), plaintext.len() + 16);
    assert_ne!(&buf[..plaintext.len()], &plaintext[..]);
    assert_eq!(&buf[plaintext.len()..], &tag[..]);
    let tag_back = key.decrypt(&mut buf).unwrap();
    assert_eq!(buf, plaintext);
    assert_eq!(tag_back, tag);
}

#[test]
fn aes_gcm_rejects_tampered_data() {
    let key = aes_key();
    let mut buf = vec![1u8, 2, 3, 4];
    key.encrypt(&mut buf).unwrap();
    buf[0] ^= 0x80;
    assert_eq!(key.decrypt(&mut buf), Err(AeadError::OpenFailed));
    let mut short = vec![0u8; 5];
    assert_eq!(key.decrypt(&mut short), Err(AeadError::OpenFailed));
}

#[test]
fn aes_gcm_empty_plaintext_seals_to_tag_alone() {
    let key = aes_key();
    let mut buf: Vec<u8> = Vec::new();
    let tag = key.encrypt(&mut buf).unwrap();
    assert_eq!(buf, tag.to_vec());
    key.decrypt(&mut buf).unwrap();
    assert!(buf.is_empty());
}

#[test]
fn aes_key_keeps_its_bytes() {
    let key = aes_key();
    assert_eq!(key.key.to_vec(), (0u8..16).collect::<Vec<u8>>());
    assert_eq!(key.iv.to_vec(), (100u8..112).collect::<Vec<u8>>());
}

#[test]
fn rsa_key_sizes() {
    assert!(is_valid_rsa_key_size(256));
    assert!(is_valid_rsa_key_size(2048));
    assert!(is_valid_rsa_key_size(4096));
    assert!(!is_valid_rsa_key_size(0));
    assert!(!is_valid_rsa_key_size(1000));
    assert!(!is_valid_rsa_key_size(4352));
    assert_eq!(
        RsaKeyObject::allocate_keypair_object(1000).unwrap_err(),
        KeyError::WrongKeySize
    );
    let mut obj = RsaKeyObject::allocate_keypair_object(2048).unwrap();
    obj.generate_key().unwrap();
    let pair = obj.into_key_pair().unwrap();
    assert_eq!(pair.key_size(), 2048);
    assert_eq!(pair.public_key().key_size(), 2048);
    assert!(pair.public_key().modulus().is_empty());
    assert!(pair.private_key().exponent().is_empty());
}

#[test]
fn stored_keys_and_backup_key_pair() {
    let public = RsaPublicKey::new(2048, &[1, 2, 3], &[1, 0, 1]).unwrap();
    let private = RsaPrivateKey::new(&[9, 9]).unwrap();
    let pair = RsaKeyPair::new(2048, public, private);
    let key = TeeKey::new(TeeKeyUsage::Backup, TeeKeyObject::RsaKeyPair(pair)).unwrap();
    assert_eq!(key.unique_id(), "keystore-backup");
    let loaded = load_backup_keypair(&key).unwrap();
    assert_eq!(loaded.public_key().modulus(), &[1, 2, 3]);
    assert_eq!(loaded.public_key().exponent(), &[1, 0, 1]);
    assert_eq!(loaded.private_key().exponent(), &[9, 9]);

    let signing = TeeKey::new(
        TeeKeyUsage::Signing,
        TeeKeyObject::EcdsaKeyPair(EcdsaKeyPairBytes { pkcs8_bytes: vec![7; 4] }),
    )
    .unwrap();
    assert_eq!(signing.unique_id(), "keystore-signing");
    assert_eq!(
        load_backup_keypair(&signing).unwrap_err(),
        KeyError::InvalidKeyObject
    );
    assert_eq!(KeyError::InvalidKeyObject.message(), "invalid key object");
    let copy = signing.clone();
    match copy.object() {
        TeeKeyObject::EcdsaKeyPair(b) => assert_eq!(b.pkcs8_bytes, vec![7; 4]),
        other => panic!("unexpected {:?}", other),
    }
}

#[test]
fn attestation_defaults_and_cert_chain() {
    assert_eq!(AttestationReport::default().measurement, vec![0u8; 32]);
    let certs = vec![vec![1u8], vec![2u8], vec![3u8], vec![4u8]];
    let chain = AttestationCertChain::from_presented_certs(&certs).unwrap();
    assert_eq!(chain.end, vec![1u8]);
    assert_eq!(chain.intermediate, vec![2u8]);
    assert_eq!(chain.root, vec![3u8]);
    assert!(AttestationCertChain::from_presented_certs(&certs[..2].to_vec()).is_none());
}

#[test]
fn generated_aes_keys_work() {
    let key = AesGcm128Key::generate().unwrap();
    let other = AesGcm128Key::generate().unwrap();
    assert_ne!(key, other);
    let mut buf = b"data".to_vec();
    key.encrypt(&mut buf).unwrap();
    key.decrypt(&mut buf).unwrap();
    assert_eq!(buf, b"data".to_vec());
}

#[test]
fn device_key_pairs_are_created_and_loaded() {
    let (backup, public_key) = create_backup_keypair(RSA_KEY_SIZE).unwrap();
    assert_eq!(backup.unique_id(), "keystore-backup");
    assert_eq!(public_key.key_size(), 2048);
    assert_eq!(load_backup_keypair(&backup).unwrap().key_size(), 2048);
    assert_eq!(
        load_signing_keypair(&backup).unwrap_err(),
        KeyError::InvalidKeyObject
    );
    assert_eq!(create_backup_keypair(100).unwrap_err(), KeyError::WrongKeySize);

    let (signing, signing_public) = create_signing_keypair().unwrap();
    assert_eq!(signing.unique_id(), "keystore-signing");
    let kp = load_signing_keypair(&signing).unwrap();
    assert_eq!(kp.pub_key(), &signing_public[..]);
    let sig = kp.sign(b"m").unwrap();
    assert!(verify_signature_p256(&signing_public, b"m", &sig).is_ok());
    match export_public_key(&signing).unwrap() {
        ExportedPublicKey::Ecdsa(k) => assert_eq!(k, signing_public),
        other => panic!("unexpected {:?}", other),
    }
    match export_public_key(&backup).unwrap() {
        ExportedPublicKey::Rsa(k) => assert_eq!(k.key_size(), 2048),
        other => panic!("unexpected {:?}", other),
    }
    let broken = TeeKey::new(
        TeeKeyUsage::Signing,
        TeeKeyObject::EcdsaKeyPair(EcdsaKeyPairBytes { pkcs8_bytes: vec![1, 2] }),
    )
    .unwrap();
    assert_eq!(load_signing_keypair(&broken).unwrap_err(), KeyError::KeyRejected);
}
