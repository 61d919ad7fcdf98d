//! Creating the device's key pairs and loading them back from the keys that
//! secure storage holds.
use vstd::prelude::*;

use crate::ecdsa::{
    ecdsa_pkcs8_curve, ecdsa_pkcs8_public_key, spec_uncompressed, EcdsaCurve, EcdsaError,
    EcdsaKeyPair,
};
use crate::rsa::{spec_valid_rsa_key_size, RsaKeyObject};
use crate::tee_key::{
    EcdsaKeyPairBytes, KeyError, RsaKeyPair, RsaPublicKey, TeeKey, TeeKeyObject,
    TeeKeyObjectView, TeeKeyUsage,
};

verus! {

/// The size in bits of the device's backup RSA key.
pub const RSA_KEY_SIZE: usize = 2048;

/// A new backup key of `key_size` bits, stored as an RSA key pair, with its
/// public key; `WrongKeySize` unless the size is a multiple of 256 from 256
/// to 4096.
pub fn create_backup_keypair(key_size: usize) -> (res: Result<(TeeKey, RsaPublicKey), KeyError>)
    ensures
        res is Ok <==> spec_valid_rsa_key_size(key_size as int),
        match res {
            Ok((key, public_key)) => {
                &&& key.spec_usage() == TeeKeyUsage::Backup
                &&& key.spec_object() matches TeeKeyObjectView::RsaKeyPair(pair)
                &&& pair.key_size == key_size
                &&& pair.public_key == public_key@
                &&& public_key@.key_size == key_size
            },
            Err(e) => e == KeyError::WrongKeySize,
        },
{
    let mut kp_object = RsaKeyObject::allocate_keypair_object(key_size)?;
    kp_object.generate_key()?;
    let kp = kp_object.into_key_pair()?;
    let public_key = kp.public_key().clone();
    let key = TeeKey::new(TeeKeyUsage::Backup, TeeKeyObject::RsaKeyPair(kp))?;
    Ok((key, public_key))
}

/// A new signing key, stored as the PKCS#8 document of a fresh P-256 key
/// pair, with its public key; an error when no key pair could be made.
pub fn create_signing_keypair() -> (res: Result<(TeeKey, Vec<u8>), KeyError>)
    ensures
        match res {
            Ok((key, public_key)) => {
                &&& key.spec_usage() == TeeKeyUsage::Signing
                &&& key.spec_object() matches TeeKeyObjectView::EcdsaKeyPair(pkcs8)
                &&& public_key@ == ecdsa_pkcs8_public_key(EcdsaCurve::P256, pkcs8)
                &&& ecdsa_pkcs8_curve(pkcs8) == EcdsaCurve::P256
                &&& spec_uncompressed(EcdsaCurve::P256, public_key@)
            },
            Err(e) => e == KeyError::GenerationFailed || e == KeyError::KeyRejected,
        },
{
    let ecdsa_keypair = match EcdsaKeyPair::new() {
        Ok(kp) => kp,
        Err(EcdsaError::GenerationFailed) => return Err(KeyError::GenerationFailed),
        Err(_) => return Err(KeyError::KeyRejected),
    };
    let bytes = EcdsaKeyPairBytes {
        pkcs8_bytes: vstd::slice::slice_to_vec(ecdsa_keypair.prv_key()),
    };
    let key = TeeKey::new(TeeKeyUsage::Signing, TeeKeyObject::EcdsaKeyPair(bytes))?;
    Ok((key, vstd::slice::slice_to_vec(ecdsa_keypair.pub_key())))
}

/// The signing key pair held by the stored signing key: the P-256 key pair of
/// its PKCS#8 document; `InvalidKeyObject` when it holds another kind of key,
/// `KeyRejected` when the document is rejected.
pub fn load_signing_keypair(key: &TeeKey) -> (res: Result<EcdsaKeyPair, KeyError>)
    ensures
        match key.spec_object() {
            TeeKeyObjectView::EcdsaKeyPair(pkcs8) => match res {
                Ok(kp) => {
                    &&& kp.spec_curve() == EcdsaCurve::P256
                    &&& kp.spec_pkcs8() == pkcs8
                    &&& kp.spec_well_formed()
                },
                Err(e) => e == KeyError::KeyRejected,
            },
            _ => res == Err::<EcdsaKeyPair, KeyError>(KeyError::InvalidKeyObject),
        },
{
    match key.object() {
        TeeKeyObject::EcdsaKeyPair(bytes) => match bytes.to_key_pair() {
            Ok(kp) => Ok(kp),
            Err(_) => Err(KeyError::KeyRejected),
        },
        _ => Err(KeyError::InvalidKeyObject),
    }
}

/// The backup key pair held by the stored backup key: its RSA key pair, or
/// `InvalidKeyObject` when it holds another kind of key.
pub fn load_backup_keypair(key: &TeeKey) -> (res: Result<RsaKeyPair, KeyError>)
    ensures
        res is Ok <==> key.spec_object() is RsaKeyPair,
        match res {
            Ok(pair) => key.spec_object() == TeeKeyObjectView::RsaKeyPair(pair@),
            Err(e) => e == KeyError::InvalidKeyObject,
        },
{
    match key.object() {
        TeeKeyObject::RsaKeyPair(rsa_key_pair) => Ok(rsa_key_pair),
        _ => Err(KeyError::InvalidKeyObject),
    }
}

} // verus!
