//! AES-128-GCM keys that encrypt and decrypt data keys in place, with the
//! authentication tag (the CMAC) appended to the ciphertext.
use ring::rand::SecureRandom;
use vstd::prelude::*;

verus! {

/// The length of an AES-GCM-128 key.
pub const AES_GCM_128_KEY_LENGTH: usize = 16;

/// The length of an AES-GCM-128 initialization vector.
pub const AES_GCM_128_IV_LENGTH: usize = 12;

/// The length of the authentication tag.
pub const CMAC_LENGTH: usize = 16;

/// The largest input that AES-128-GCM seals or opens, in bytes.
pub const AES_GCM_MAX_INPUT_LEN: u64 = 68719476704;

#[verifier::external_type_specification]
#[verifier::external_body]
pub struct ExUnspecified(ring::error::Unspecified);

/// The ciphertext followed by the 16-byte tag that AES-128-GCM produces for
/// `plaintext` under `key` and the nonce `iv`, with eight zero bytes of
/// additional data.
pub uninterp spec fn aes_128_gcm_sealed(key: Seq<u8>, iv: Seq<u8>, plaintext: Seq<u8>) -> Seq<u8>;

/// The plaintext that `sealed` (ciphertext followed by its tag) opens to under
/// `key`, the nonce `iv` and eight zero bytes of additional data, or `None`
/// when it does not authenticate.
pub uninterp spec fn aes_128_gcm_opened(key: Seq<u8>, iv: Seq<u8>, sealed: Seq<u8>) -> Option<
    Seq<u8>,
>;

/// Seals `in_out` in place with ring's AES-128-GCM (`UnboundKey::new`,
/// `Nonce::assume_unique_for_key`, `LessSafeKey::seal_in_place_append_tag`,
/// eight zero bytes of AAD). Claimed: it succeeds exactly for inputs up to
/// ring's maximum input length; on success the buffer is the ciphertext of the
/// same length followed by the 16-byte tag, and opening it under the same key
/// and nonce gives the plaintext back. The buffer is left unsaid on failure.
#[verifier::external_body]
fn seal_aes_128_gcm(in_out: &mut Vec<u8>, key: &[u8; 16], iv: &[u8; 12]) -> (res: Result<
    (),
    ring::error::Unspecified,
>)
    ensures
        res is Ok <==> old(in_out)@.len() <= AES_GCM_MAX_INPUT_LEN,
        res is Ok ==> final(in_out)@ == aes_128_gcm_sealed(key@, iv@, old(in_out)@),
        res is Ok ==> final(in_out)@.len() == old(in_out)@.len() + 16,
        res is Ok ==> aes_128_gcm_opened(key@, iv@, final(in_out)@) == Some(old(in_out)@),
{
    let unbound = ring::aead::UnboundKey::new(&ring::aead::AES_128_GCM, key)?;
    let nonce = ring::aead::Nonce::assume_unique_for_key(*iv);
    let sealing = ring::aead::LessSafeKey::new(unbound);
    sealing.seal_in_place_append_tag(nonce, ring::aead::Aad::from([0u8; 8]), in_out)
}

/// Opens `in_out` in place with ring's AES-128-GCM (`UnboundKey::new`,
/// `Nonce::assume_unique_for_key`, `LessSafeKey::open_in_place`, eight zero
/// bytes of AAD). Claimed: the length of the buffer never changes; it succeeds
/// exactly when the data authenticates, returning the plaintext length (16
/// less than the input), with the plaintext in front and the tag untouched
/// behind it. The contents are left unsaid on failure.
#[verifier::external_body]
fn open_aes_128_gcm(in_out: &mut Vec<u8>, key: &[u8; 16], iv: &[u8; 12]) -> (res: Result<
    usize,
    ring::error::Unspecified,
>)
    ensures
        final(in_out)@.len() == old(in_out)@.len(),
        res is Ok <==> aes_128_gcm_opened(key@, iv@, old(in_out)@) is Some,
        res is Ok ==> old(in_out)@.len() >= 16 && res->Ok_0 == old(in_out)@.len() - 16,
        res is Ok ==> final(in_out)@.subrange(0, res->Ok_0 as int) == aes_128_gcm_opened(
            key@,
            iv@,
            old(in_out)@,
        )->Some_0,
        res is Ok ==> final(in_out)@.subrange(res->Ok_0 as int, old(in_out)@.len() as int)
            == old(in_out)@.subrange(res->Ok_0 as int, old(in_out)@.len() as int),
{
    let unbound = ring::aead::UnboundKey::new(&ring::aead::AES_128_GCM, key)?;
    let nonce = ring::aead::Nonce::assume_unique_for_key(*iv);
    let opening = ring::aead::LessSafeKey::new(unbound);
    let plaintext = opening.open_in_place(nonce, ring::aead::Aad::from([0u8; 8]), in_out)?;
    Ok(plaintext.len())
}

/// `len` random bytes from ring's `SystemRandom` (`SecureRandom::fill`).
/// Claimed: bytes it returns are `len` of them. The bytes themselves are
/// random, and when the generator fails (`None`) is left unsaid.
#[verifier::external_body]
fn random_bytes(len: usize) -> (bytes: Option<Vec<u8>>)
    ensures
        bytes matches Some(b) ==> b@.len() == len,
{
    let mut buf = vec![0u8; len];
    match ring::rand::SystemRandom::new().fill(&mut buf) {
        Ok(()) => Some(buf),
        Err(_) => None,
    }
}

/// Errors of AES-GCM encryption and decryption.
#[derive(Debug, Clone, Copy, PartialEq, Eq, Structural)]
pub enum AeadError {
    /// The input was too long to seal.
    SealFailed,
    /// The data did not authenticate.
    OpenFailed,
    /// No random key could be generated.
    GenerationFailed,
}

/// An AES-GCM-128 key and the initialization vector it is used with.
#[derive(Copy, Clone, Debug, PartialEq)]
pub struct AesGcm128Key {
    pub key: [u8; 16],
    pub iv: [u8; 12],
}

impl AesGcm128Key {
    /// Whether `sealed` decrypts under this key to `plaintext`.
    pub open spec fn spec_opens_to(&self, sealed: Seq<u8>, plaintext: Seq<u8>) -> bool {
        aes_128_gcm_opened(self.key@, self.iv@, sealed) == Some(plaintext)
    }

    /// The key made of the 16 bytes of `in_key` and the 12 bytes of `in_iv`.
    pub fn new(in_key: &[u8], in_iv: &[u8]) -> (res: Result<Self, AeadError>)
        requires
            in_key@.len() == AES_GCM_128_KEY_LENGTH,
            in_iv@.len() == AES_GCM_128_IV_LENGTH,
        ensures
            res is Ok,
            res->Ok_0.key@ == in_key@,
            res->Ok_0.iv@ == in_iv@,
    {
        let mut key = [0u8; 16];
        let mut iv = [0u8; 12];
        let mut i: usize = 0;
        while i < 16
            invariant
                in_key@.len() == 16,
                0 <= i <= 16,
                forall|k: int| 0 <= k < i ==> key@[k] == in_key@[k],
            decreases 16 - i,
        {
            key.set(i, in_key[i]);
            i = i + 1;
        }
        let mut j: usize = 0;
        while j < 12
            invariant
                in_iv@.len() == 12,
                0 <= j <= 12,
                forall|k: int| 0 <= k < j ==> iv@[k] == in_iv@[k],
            decreases 12 - j,
        {
            iv.set(j, in_iv[j]);
            j = j + 1;
        }
        assert(key@ =~= in_key@);
        assert(iv@ =~= in_iv@);
        Ok(AesGcm128Key { key, iv })
    }

    /// A fresh random key and initialization vector; `GenerationFailed` when
    /// the random generator fails.
    pub fn generate() -> (res: Result<Self, AeadError>)
        ensures
            res matches Err(e) ==> e == AeadError::GenerationFailed,
    {
        let key_bytes = match random_bytes(AES_GCM_128_KEY_LENGTH) {
            Some(b) => b,
            None => return Err(AeadError::GenerationFailed),
        };
        let iv_bytes = match random_bytes(AES_GCM_128_IV_LENGTH) {
            Some(b) => b,
            None => return Err(AeadError::GenerationFailed),
        };
        Self::new(key_bytes.as_slice(), iv_bytes.as_slice())
    }

    /// Decrypts `in_out` (ciphertext followed by tag) in place, leaving the
    /// plaintext, and returns the tag. Fails when the data does not
    /// authenticate.
    pub fn decrypt(&self, in_out: &mut Vec<u8>) -> (res: Result<[u8; 16], AeadError>)
        ensures
            res is Ok <==> aes_128_gcm_opened(self.key@, self.iv@, old(in_out)@) is Some,
            res is Ok ==> self.spec_opens_to(old(in_out)@, final(in_out)@),
            res is Ok ==> res->Ok_0@ == old(in_out)@.subrange(
                old(in_out)@.len() - 16,
                old(in_out)@.len() as int,
            ),
            res is Err ==> res->Err_0 == AeadError::OpenFailed,
    {
        let plaintext_len = match open_aes_128_gcm(in_out, &self.key, &self.iv) {
            Ok(n) => n,
            Err(_) => return Err(AeadError::OpenFailed),
        };
        let mut cmac = [0u8; 16];
        let mut i: usize = 0;
        while i < 16
            invariant
                in_out.len() == plaintext_len + 16,
                0 <= i <= 16,
                forall|k: int| 0 <= k < i ==> cmac@[k] == in_out@[plaintext_len + k],
            decreases 16 - i,
        {
            cmac.set(i, in_out[plaintext_len + i]);
            i = i + 1;
        }
        assert(cmac@ =~= in_out@.subrange(plaintext_len as int, plaintext_len + 16));
        in_out.truncate(plaintext_len);
        Ok(cmac)
    }

    /// Encrypts `in_out` in place, appending the tag, and returns the tag.
    /// What it leaves in `in_out` decrypts under the same key back to the
    /// plaintext. Fails for inputs longer than AES-GCM allows.
    pub fn encrypt(&self, in_out: &mut Vec<u8>) -> (res: Result<[u8; 16], AeadError>)
        ensures
            res is Ok <==> old(in_out)@.len() <= AES_GCM_MAX_INPUT_LEN,
            res is Ok ==> final(in_out)@ == aes_128_gcm_sealed(self.key@, self.iv@, old(in_out)@),
            res is Ok ==> final(in_out)@.len() == old(in_out)@.len() + 16,
            res is Ok ==> res->Ok_0@ == final(in_out)@.subrange(
                final(in_out)@.len() - 16,
                final(in_out)@.len() as int,
            ),
            res is Ok ==> self.spec_opens_to(final(in_out)@, old(in_out)@),
            res is Err ==> res->Err_0 == AeadError::SealFailed,
    {
        match seal_aes_128_gcm(in_out, &self.key, &self.iv) {
            Ok(()) => {},
            Err(_) => return Err(AeadError::SealFailed),
        }
        let n = in_out.len();
        let start = n - 16;
        let mut cmac = [0u8; 16];
        let mut i: usize = 0;
        while i < 16
            invariant
                n == in_out@.len(),
                start == n - 16,
                n >= 16,
                0 <= i <= 16,
                forall|k: int| 0 <= k < i ==> cmac@[k] == in_out@[start + k],
            decreases 16 - i,
        {
            cmac.set(i, in_out[start + i]);
            i = i + 1;
        }
        assert(cmac@ =~= in_out@.subrange(start as int, n as int));
        Ok(cmac)
    }
}

} // verus!
