//! RSA key objects of the local (non-TEE) secure-storage backend, and the key
//! sizes that RSA key objects accept.
use vstd::prelude::*;

use crate::tee_key::{KeyError, RsaKeyPair, RsaKeyPairView, RsaPrivateKey, RsaPublicKey, RsaPublicKeyView};

verus! {

/// Whether `key_size` (bits of the modulus) is a multiple of 256 from 256 to
/// 4096.
pub open spec fn spec_valid_rsa_key_size(key_size: int) -> bool {
    key_size % 256 == 0 && 256 <= key_size <= 4096
}

/// Whether `key_size` is a key size RSA key objects accept.
pub fn is_valid_rsa_key_size(key_size: usize) -> (valid: bool)
    ensures
        valid == spec_valid_rsa_key_size(key_size as int),
{
    !(key_size % 256 != 0 || key_size < 256 || key_size > 4096)
}

/// An RSA key object of the local backend: the key size, and the object bytes
/// and object type that stand in for a TEE transient object.
#[derive(Debug)]
pub struct RsaKeyObject {
    key_size: usize,
    key_object: Vec<u8>,
    key_object_type: u32,
}

impl RsaKeyObject {
    /// The key size of this object.
    pub closed spec fn spec_key_size(&self) -> usize {
        self.key_size
    }

    /// The object bytes.
    pub closed spec fn spec_key_object(&self) -> Seq<u8> {
        self.key_object@
    }

    /// The object type.
    pub closed spec fn spec_key_object_type(&self) -> u32 {
        self.key_object_type
    }

    /// The key object with the given size, bytes and type.
    pub fn new(key_size: usize, key_object: Vec<u8>, key_object_type: u32) -> (res: Result<
        Self,
        KeyError,
    >)
        ensures
            res is Ok,
            res->Ok_0.spec_key_size() == key_size,
            res->Ok_0.spec_key_object() == key_object@,
            res->Ok_0.spec_key_object_type() == key_object_type,
    {
        Ok(Self { key_size, key_object, key_object_type })
    }

    /// An empty key-pair object of `key_size` bits; `WrongKeySize` unless the
    /// size is a multiple of 256 from 256 to 4096.
    pub fn allocate_keypair_object(key_size: usize) -> (res: Result<Self, KeyError>)
        ensures
            res is Ok <==> spec_valid_rsa_key_size(key_size as int),
            match res {
                Ok(obj) => {
                    &&& obj.spec_key_size() == key_size
                    &&& obj.spec_key_object() == Seq::<u8>::empty()
                    &&& obj.spec_key_object_type() == 0
                },
                Err(e) => e == KeyError::WrongKeySize,
            },
    {
        if !is_valid_rsa_key_size(key_size) {
            return Err(KeyError::WrongKeySize);
        }
        Ok(Self { key_size, key_object: Vec::new(), key_object_type: 0 })
    }

    /// Generating a key is a no-op for the local backend.
    pub fn generate_key(&mut self) -> (res: Result<(), KeyError>)
        ensures
            res is Ok,
            final(self).spec_key_size() == old(self).spec_key_size(),
            final(self).spec_key_object() == old(self).spec_key_object(),
            final(self).spec_key_object_type() == old(self).spec_key_object_type(),
    {
        Ok(())
    }

    /// The key pair of this object: the local backend holds no key material,
    /// so both keys are empty and only the key size is kept.
    pub fn into_key_pair(self) -> (res: Result<RsaKeyPair, KeyError>)
        ensures
            res is Ok,
            res->Ok_0@ == (RsaKeyPairView {
                key_size: self.spec_key_size(),
                public_key: RsaPublicKeyView {
                    key_size: self.spec_key_size(),
                    modulus: Seq::<u8>::empty(),
                    exponent: Seq::<u8>::empty(),
                },
                private_key: Seq::<u8>::empty(),
            }),
    {
        let empty: Vec<u8> = Vec::new();
        let pubkey = RsaPublicKey::new(self.key_size, empty.as_slice(), empty.as_slice())?;
        let privkey = RsaPrivateKey::new(empty.as_slice())?;
        Ok(RsaKeyPair::new(self.key_size, pubkey, privkey))
    }
}

} // verus!
