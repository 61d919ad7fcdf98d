//! Key material kept in secure storage: RSA key pairs and public keys, and
//! PKCS#8 encoded ECDSA key pairs, each stored under the key of its usage.
use vstd::prelude::*;

use crate::ecdsa::{ecdsa_pkcs8_public_key, EcdsaCurve, EcdsaError, EcdsaKeyPair};

verus! {

/// Errors of key handling.
#[derive(Debug, Clone, Copy, PartialEq, Eq, Structural)]
pub enum KeyError {
    /// The RSA key size is not a multiple of 256 between 256 and 4096.
    WrongKeySize,
    /// The stored key object is not of the kind asked for.
    InvalidKeyObject,
    /// The stored ECDSA key pair was rejected.
    KeyRejected,
    /// No key pair could be generated.
    GenerationFailed,
}

impl KeyError {
    /// The description of this error.
    pub fn message(&self) -> (message: &'static str)
        ensures
            *self == KeyError::WrongKeySize ==> message@
                == "wrong key size, should be multiple of 256, between 256 and 4096"@,
            *self == KeyError::InvalidKeyObject ==> message@ == "invalid key object"@,
            *self == KeyError::KeyRejected ==> message@ == "key rejected"@,
            *self == KeyError::GenerationFailed ==> message@ == "key generation failed"@,
    {
        match self {
            KeyError::WrongKeySize => "wrong key size, should be multiple of 256, between 256 and 4096",
            KeyError::InvalidKeyObject => "invalid key object",
            KeyError::KeyRejected => "key rejected",
            KeyError::GenerationFailed => "key generation failed",
        }
    }
}

/// What a stored key is used for.
#[derive(Debug, Clone, Copy, PartialEq, Eq, Structural)]
pub enum TeeKeyUsage {
    Backup,
    Signing,
}

/// The storage key of a usage.
pub open spec fn spec_usage_key(usage: TeeKeyUsage) -> Seq<char> {
    match usage {
        TeeKeyUsage::Backup => "keystore-backup"@,
        TeeKeyUsage::Signing => "keystore-signing"@,
    }
}

impl TeeKeyUsage {
    /// The storage key of this usage.
    pub fn storage_key(&self) -> (key: String)
        ensures
            key@ == spec_usage_key(*self),
    {
        match self {
            TeeKeyUsage::Backup => String::from_str("keystore-backup"),
            TeeKeyUsage::Signing => String::from_str("keystore-signing"),
        }
    }
}

impl From<TeeKeyUsage> for String {
    /// The storage key of the usage.
    fn from(usage: TeeKeyUsage) -> (key: String)
        ensures
            key@ == spec_usage_key(usage),
    {
        usage.storage_key()
    }
}

impl vstd::std_specs::convert::FromSpecImpl<TeeKeyUsage> for String {
    open spec fn obeys_from_spec() -> bool {
        false
    }

    open spec fn from_spec(usage: TeeKeyUsage) -> String {
        arbitrary()
    }
}

/// An RSA private key: its private exponent.
#[derive(Debug, PartialEq, Eq, Hash)]
pub struct RsaPrivateKey {
    exponent: Vec<u8>,
}

impl View for RsaPrivateKey {
    type V = Seq<u8>;

    closed spec fn view(&self) -> Seq<u8> {
        self.exponent@
    }
}

impl RsaPrivateKey {
    /// The private key with exponent `e`.
    pub fn new(e: &[u8]) -> (res: Result<Self, KeyError>)
        ensures
            res is Ok,
            res->Ok_0@ == e@,
    {
        Ok(Self { exponent: vstd::slice::slice_to_vec(e) })
    }

    /// The private exponent.
    pub fn exponent(&self) -> (e: &[u8])
        ensures
            e@ == self@,
    {
        self.exponent.as_slice()
    }
}

impl Clone for RsaPrivateKey {
    fn clone(&self) -> (key: Self)
        ensures
            key@ == self@,
    {
        RsaPrivateKey { exponent: vstd::slice::slice_to_vec(self.exponent.as_slice()) }
    }
}

/// The contents of an RSA public key: the number of bits of the modulus, the
/// modulus, and the public exponent.
pub struct RsaPublicKeyView {
    pub key_size: usize,
    pub modulus: Seq<u8>,
    pub exponent: Seq<u8>,
}

/// An RSA public key.
#[derive(Debug, PartialEq, Eq, Hash)]
pub struct RsaPublicKey {
    key_size: usize,
    modulus: Vec<u8>,
    exponent: Vec<u8>,
}

impl View for RsaPublicKey {
    type V = RsaPublicKeyView;

    closed spec fn view(&self) -> RsaPublicKeyView {
        RsaPublicKeyView {
            key_size: self.key_size,
            modulus: self.modulus@,
            exponent: self.exponent@,
        }
    }
}

impl RsaPublicKey {
    /// The public key of `key_size` bits with modulus `m` and exponent `e`.
    pub fn new(key_size: usize, m: &[u8], e: &[u8]) -> (res: Result<Self, KeyError>)
        ensures
            res is Ok,
            res->Ok_0@ == (RsaPublicKeyView { key_size, modulus: m@, exponent: e@ }),
    {
        Ok(
            Self {
                key_size,
                modulus: vstd::slice::slice_to_vec(m),
                exponent: vstd::slice::slice_to_vec(e),
            },
        )
    }

    /// The number of bits of the modulus.
    pub fn key_size(&self) -> (key_size: usize)
        ensures
            key_size == self@.key_size,
    {
        self.key_size
    }

    /// The modulus.
    pub fn modulus(&self) -> (m: &[u8])
        ensures
            m@ == self@.modulus,
    {
        self.modulus.as_slice()
    }

    /// The public exponent.
    pub fn exponent(&self) -> (e: &[u8])
        ensures
            e@ == self@.exponent,
    {
        self.exponent.as_slice()
    }
}

impl Clone for RsaPublicKey {
    fn clone(&self) -> (key: Self)
        ensures
            key@ == self@,
    {
        RsaPublicKey {
            key_size: self.key_size,
            modulus: vstd::slice::slice_to_vec(self.modulus.as_slice()),
            exponent: vstd::slice::slice_to_vec(self.exponent.as_slice()),
        }
    }
}

/// The contents of an RSA key pair.
pub struct RsaKeyPairView {
    pub key_size: usize,
    pub public_key: RsaPublicKeyView,
    pub private_key: Seq<u8>,
}

/// An RSA key pair.
#[derive(Debug, PartialEq, Eq, Hash)]
pub struct RsaKeyPair {
    key_size: usize,
    public_key: RsaPublicKey,
    private_key: RsaPrivateKey,
}

impl View for RsaKeyPair {
    type V = RsaKeyPairView;

    closed spec fn view(&self) -> RsaKeyPairView {
        RsaKeyPairView {
            key_size: self.key_size,
            public_key: self.public_key@,
            private_key: self.private_key@,
        }
    }
}

impl RsaKeyPair {
    /// The key pair of `key_size` bits made of the two keys.
    pub fn new(key_size: usize, public_key: RsaPublicKey, private_key: RsaPrivateKey) -> (pair:
        Self)
        ensures
            pair@ == (RsaKeyPairView {
                key_size,
                public_key: public_key@,
                private_key: private_key@,
            }),
    {
        Self { key_size, public_key, private_key }
    }

    /// The public key.
    pub fn public_key(&self) -> (key: &RsaPublicKey)
        ensures
            key@ == self@.public_key,
    {
        &self.public_key
    }

    /// The private key.
    pub fn private_key(&self) -> (key: &RsaPrivateKey)
        ensures
            key@ == self@.private_key,
    {
        &self.private_key
    }

    /// The number of bits of the modulus.
    pub fn key_size(&self) -> (key_size: usize)
        ensures
            key_size == self@.key_size,
    {
        self.key_size
    }
}

impl Clone for RsaKeyPair {
    fn clone(&self) -> (pair: Self)
        ensures
            pair@ == self@,
    {
        RsaKeyPair {
            key_size: self.key_size,
            public_key: self.public_key.clone(),
            private_key: self.private_key.clone(),
        }
    }
}

/// A PKCS#8 encoded ECDSA key pair.
#[derive(Debug)]
pub struct EcdsaKeyPairBytes {
    pub pkcs8_bytes: Vec<u8>,
}

impl Clone for EcdsaKeyPairBytes {
    fn clone(&self) -> (pair: Self)
        ensures
            pair.pkcs8_bytes@ == self.pkcs8_bytes@,
    {
        EcdsaKeyPairBytes { pkcs8_bytes: vstd::slice::slice_to_vec(self.pkcs8_bytes.as_slice()) }
    }
}

/// The contents of a stored key object.
pub enum TeeKeyObjectView {
    RsaKeyPair(RsaKeyPairView),
    RsaPublicKey(RsaPublicKeyView),
    EcdsaKeyPair(Seq<u8>),
}

/// A stored key object.
#[derive(Debug)]
pub enum TeeKeyObject {
    /// For encrypting the backup data key.
    RsaKeyPair(RsaKeyPair),
    /// For decrypting the backup data key.
    RsaPublicKey(RsaPublicKey),
    /// For signing TLS end certificates, as intermediate CA.
    EcdsaKeyPair(EcdsaKeyPairBytes),
}

impl View for TeeKeyObject {
    type V = TeeKeyObjectView;

    open spec fn view(&self) -> TeeKeyObjectView {
        match self {
            TeeKeyObject::RsaKeyPair(p) => TeeKeyObjectView::RsaKeyPair(p@),
            TeeKeyObject::RsaPublicKey(k) => TeeKeyObjectView::RsaPublicKey(k@),
            TeeKeyObject::EcdsaKeyPair(b) => TeeKeyObjectView::EcdsaKeyPair(b.pkcs8_bytes@),
        }
    }
}

impl Clone for TeeKeyObject {
    fn clone(&self) -> (object: Self)
        ensures
            object@ == self@,
    {
        match self {
            TeeKeyObject::RsaKeyPair(p) => TeeKeyObject::RsaKeyPair(p.clone()),
            TeeKeyObject::RsaPublicKey(k) => TeeKeyObject::RsaPublicKey(k.clone()),
            TeeKeyObject::EcdsaKeyPair(b) => TeeKeyObject::EcdsaKeyPair(b.clone()),
        }
    }
}

/// A key kept in secure storage under the storage key of its usage.
#[derive(Debug)]
pub struct TeeKey {
    usage: TeeKeyUsage,
    object: TeeKeyObject,
}

impl TeeKey {
    /// The usage of this key.
    pub closed spec fn spec_usage(&self) -> TeeKeyUsage {
        self.usage
    }

    /// The contents of the key object.
    pub closed spec fn spec_object(&self) -> TeeKeyObjectView {
        self.object@
    }

    /// The key with the given usage and object.
    pub fn new(usage: TeeKeyUsage, object: TeeKeyObject) -> (res: Result<Self, KeyError>)
        ensures
            res is Ok,
            res->Ok_0.spec_usage() == usage,
            res->Ok_0.spec_object() == object@,
    {
        Ok(Self { usage, object })
    }

    /// A copy of the key object.
    pub fn object(&self) -> (object: TeeKeyObject)
        ensures
            object@ == self.spec_object(),
    {
        self.object.clone()
    }

    /// The storage key of this key: that of its usage.
    pub fn unique_id(&self) -> (id: String)
        ensures
            id@ == spec_usage_key(self.spec_usage()),
    {
        self.usage.storage_key()
    }
}

impl Clone for TeeKey {
    fn clone(&self) -> (key: Self)
        ensures
            key.spec_usage() == self.spec_usage(),
            key.spec_object() == self.spec_object(),
    {
        TeeKey { usage: self.usage, object: self.object.clone() }
    }
}

impl EcdsaKeyPairBytes {
    /// The P-256 key pair of this PKCS#8 document; `KeyRejected` when the
    /// document is rejected.
    pub fn to_key_pair(&self) -> (res: Result<EcdsaKeyPair, EcdsaError>)
        ensures
            res matches Ok(kp) ==> {
                &&& kp.spec_curve() == EcdsaCurve::P256
                &&& kp.spec_pkcs8() == self.pkcs8_bytes@
                &&& kp.spec_public_key() == ecdsa_pkcs8_public_key(
                    EcdsaCurve::P256,
                    self.pkcs8_bytes@,
                )
                &&& kp.spec_well_formed()
            },
            res matches Err(e) ==> e == EcdsaError::KeyRejected,
    {
        EcdsaKeyPair::from_bytes(self.pkcs8_bytes.as_slice(), EcdsaCurve::P256)
    }
}

/// The public key a stored key gives out: an RSA public key, which is
/// exported in its serialized form, or the raw public key of an ECDSA pair.
#[derive(Debug)]
pub enum ExportedPublicKey {
    Rsa(RsaPublicKey),
    Ecdsa(Vec<u8>),
}

/// The public key of a stored key: the public half of an RSA key pair, an
/// RSA public key itself, or the public key of an ECDSA key pair's PKCS#8
/// document (`KeyRejected` when that document is rejected).
pub fn export_public_key(key: &TeeKey) -> (res: Result<ExportedPublicKey, EcdsaError>)
    ensures
        match key.spec_object() {
            TeeKeyObjectView::RsaKeyPair(pair) => res matches Ok(ExportedPublicKey::Rsa(k))
                && k@ == pair.public_key,
            TeeKeyObjectView::RsaPublicKey(public_key) => res matches Ok(ExportedPublicKey::Rsa(k))
                && k@ == public_key,
            TeeKeyObjectView::EcdsaKeyPair(pkcs8) => match res {
                Ok(ExportedPublicKey::Ecdsa(k)) => k@ == ecdsa_pkcs8_public_key(
                    EcdsaCurve::P256,
                    pkcs8,
                ),
                Ok(ExportedPublicKey::Rsa(_)) => false,
                Err(e) => e == EcdsaError::KeyRejected,
            },
        },
{
    match key.object() {
        TeeKeyObject::RsaKeyPair(pair) => Ok(ExportedPublicKey::Rsa(pair.public_key().clone())),
        TeeKeyObject::RsaPublicKey(public_key) => Ok(ExportedPublicKey::Rsa(public_key)),
        TeeKeyObject::EcdsaKeyPair(bytes) => {
            let kp = bytes.to_key_pair()?;
            Ok(ExportedPublicKey::Ecdsa(vstd::slice::slice_to_vec(kp.pub_key())))
        },
    }
}

} // verus!
