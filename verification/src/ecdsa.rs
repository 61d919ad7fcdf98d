//! ECDSA key pairs on the NIST P-256 and P-384 curves, kept as their PKCS#8
//! document and public key, with signing and signature verification by ring.
use ring::signature::KeyPair;
use vstd::prelude::*;

verus! {

/// The curve and digest of an ECDSA key: P-256 with SHA-256 or P-384 with
/// SHA-384, signatures ASN.1-encoded.
#[derive(Debug, Clone, Copy, PartialEq, Eq, Structural)]
pub enum EcdsaCurve {
    P256,
    P384,
}

/// The public key (uncompressed point) of the key pair that the PKCS#8
/// document `pkcs8` holds for `curve`.
pub uninterp spec fn ecdsa_pkcs8_public_key(curve: EcdsaCurve, pkcs8: Seq<u8>) -> Seq<u8>;

/// The curve whose key pair the PKCS#8 document `pkcs8` holds.
pub uninterp spec fn ecdsa_pkcs8_curve(pkcs8: Seq<u8>) -> EcdsaCurve;

/// The length of an uncompressed public key on `curve`: the `0x04` marker and
/// the two coordinates.
pub open spec fn spec_public_key_len(curve: EcdsaCurve) -> nat {
    match curve {
        EcdsaCurve::P256 => 65,
        EcdsaCurve::P384 => 97,
    }
}

/// Whether `key` has the uncompressed form of a public key on `curve`.
pub open spec fn spec_uncompressed(curve: EcdsaCurve, key: Seq<u8>) -> bool {
    key.len() == spec_public_key_len(curve) && key[0] == 4
}

/// Whether `signature` is a valid signature of `message` under the public key
/// `public_key` on `curve`.
pub uninterp spec fn ecdsa_signature_valid(
    curve: EcdsaCurve,
    public_key: Seq<u8>,
    message: Seq<u8>,
    signature: Seq<u8>,
) -> bool;

/// Generates a fresh key pair with ring's `EcdsaKeyPair::generate_pkcs8` and
/// the system random generator. Claimed: a document it returns holds a key
/// pair on the requested curve (ring wraps it with that curve's PKCS#8
/// template). The key itself is random, and it is `None` when the generator
/// fails.
#[verifier::external_body]
fn generate_pkcs8(curve: EcdsaCurve) -> (pkcs8: Option<Vec<u8>>)
    ensures
        pkcs8 matches Some(d) ==> ecdsa_pkcs8_curve(d@) == curve,
{
    let alg = match curve {
        EcdsaCurve::P256 => &ring::signature::ECDSA_P256_SHA256_ASN1_SIGNING,
        EcdsaCurve::P384 => &ring::signature::ECDSA_P384_SHA384_ASN1_SIGNING,
    };
    let rng = ring::rand::SystemRandom::new();
    ring::signature::EcdsaKeyPair::generate_pkcs8(alg, &rng).ok().map(|d| d.as_ref().to_vec())
}

/// Parses a PKCS#8 document with ring's `EcdsaKeyPair::from_pkcs8` and
/// returns the public key of the pair (`KeyPair::public_key`). Claimed: a key
/// it returns is the public key that the document holds, in uncompressed
/// form (`0x04`, then both coordinates: 65 bytes on P-256, 97 on P-384, as
/// ring's `public_from_private` writes it), and that a document it accepts for
/// `curve` is one of that curve (ring checks the algorithm identifier of the
/// curve's template). When it returns
/// `None` is left unsaid: ring rejects malformed or inconsistent documents,
/// and also fails when the random generator it seeds the pair with fails.
#[verifier::external_body]
fn parse_pkcs8(curve: EcdsaCurve, pkcs8: &[u8]) -> (public_key: Option<Vec<u8>>)
    ensures
        public_key matches Some(k) ==> k@ == ecdsa_pkcs8_public_key(curve, pkcs8@)
            && spec_uncompressed(curve, k@) && ecdsa_pkcs8_curve(pkcs8@) == curve,
{
    let alg = match curve {
        EcdsaCurve::P256 => &ring::signature::ECDSA_P256_SHA256_ASN1_SIGNING,
        EcdsaCurve::P384 => &ring::signature::ECDSA_P384_SHA384_ASN1_SIGNING,
    };
    let rng = ring::rand::SystemRandom::new();
    ring::signature::EcdsaKeyPair::from_pkcs8(alg, pkcs8, &rng).ok().map(
        |kp| kp.public_key().as_ref().to_vec(),
    )
}

/// Signs `message` with the key pair of the PKCS#8 document, with ring's
/// `EcdsaKeyPair::from_pkcs8` and `EcdsaKeyPair::sign` and the system random
/// generator. Claimed: a signature it returns is a valid signature of the
/// message under the document's public key. The signature itself is random
/// (the nonce is), and when it returns `None` is left unsaid.
#[verifier::external_body]
fn sign_pkcs8(curve: EcdsaCurve, pkcs8: &[u8], message: &[u8]) -> (signature: Option<Vec<u8>>)
    ensures
        signature matches Some(s) ==> ecdsa_signature_valid(
            curve,
            ecdsa_pkcs8_public_key(curve, pkcs8@),
            message@,
            s@,
        ),
{
    let alg = match curve {
        EcdsaCurve::P256 => &ring::signature::ECDSA_P256_SHA256_ASN1_SIGNING,
        EcdsaCurve::P384 => &ring::signature::ECDSA_P384_SHA384_ASN1_SIGNING,
    };
    let rng = ring::rand::SystemRandom::new();
    let kp = ring::signature::EcdsaKeyPair::from_pkcs8(alg, pkcs8, &rng).ok()?;
    kp.sign(&rng, message).ok().map(|s| s.as_ref().to_vec())
}

/// Verifies a signature with ring's `UnparsedPublicKey::verify`. Claimed: it
/// succeeds exactly when the signature is valid.
#[verifier::external_body]
fn verify_with_public_key(
    curve: EcdsaCurve,
    public_key: &[u8],
    message: &[u8],
    signature: &[u8],
) -> (valid: bool)
    ensures
        valid == ecdsa_signature_valid(curve, public_key@, message@, signature@),
{
    let alg = match curve {
        EcdsaCurve::P256 => &ring::signature::ECDSA_P256_SHA256_ASN1,
        EcdsaCurve::P384 => &ring::signature::ECDSA_P384_SHA384_ASN1,
    };
    ring::signature::UnparsedPublicKey::new(alg, public_key).verify(message, signature).is_ok()
}

/// Errors of ECDSA key handling.
#[derive(Debug, Clone, Copy, PartialEq, Eq, Structural)]
pub enum EcdsaError {
    /// No key pair could be generated.
    GenerationFailed,
    /// The PKCS#8 document was rejected.
    KeyRejected,
    /// Signing failed.
    SigningFailed,
    /// The signature did not verify.
    InvalidSignature,
}

/// An ECDSA key pair: its curve, PKCS#8 document and public key.
#[derive(Debug)]
pub struct EcdsaKeyPair {
    curve: EcdsaCurve,
    pkcs8_bytes: Vec<u8>,
    public_key: Vec<u8>,
}

impl EcdsaKeyPair {
    /// The curve of this key pair.
    pub closed spec fn spec_curve(&self) -> EcdsaCurve {
        self.curve
    }

    /// The PKCS#8 document of this key pair.
    pub closed spec fn spec_pkcs8(&self) -> Seq<u8> {
        self.pkcs8_bytes@
    }

    /// The public key of this key pair.
    pub closed spec fn spec_public_key(&self) -> Seq<u8> {
        self.public_key@
    }

    /// The key pair is the one its PKCS#8 document holds.
    pub closed spec fn spec_well_formed(&self) -> bool {
        self.public_key@ == ecdsa_pkcs8_public_key(self.curve, self.pkcs8_bytes@)
    }

    /// Every key pair is well formed: its public key is the one its PKCS#8
    /// document holds.
    #[verifier::type_invariant]
    closed spec fn inv(&self) -> bool {
        self.spec_well_formed()
    }

    /// A freshly generated P-256 key pair.
    pub fn new() -> (res: Result<Self, EcdsaError>)
        ensures
            res matches Ok(kp) ==> {
                &&& kp.spec_curve() == EcdsaCurve::P256
                &&& kp.spec_public_key() == ecdsa_pkcs8_public_key(EcdsaCurve::P256, kp.spec_pkcs8())
                &&& ecdsa_pkcs8_curve(kp.spec_pkcs8()) == EcdsaCurve::P256
                &&& spec_uncompressed(EcdsaCurve::P256, kp.spec_public_key())
                &&& kp.spec_well_formed()
            },
            res matches Err(e) ==> e == EcdsaError::GenerationFailed || e
                == EcdsaError::KeyRejected,
    {
        match generate_pkcs8(EcdsaCurve::P256) {
            Some(pkcs8) => Self::from_bytes(pkcs8.as_slice(), EcdsaCurve::P256),
            None => Err(EcdsaError::GenerationFailed),
        }
    }

    /// The key pair of a PKCS#8 document on `curve`; `KeyRejected` when ring
    /// rejects the document.
    pub fn from_bytes(pkcs8_bytes: &[u8], curve: EcdsaCurve) -> (res: Result<Self, EcdsaError>)
        ensures
            res matches Ok(kp) ==> {
                &&& kp.spec_curve() == curve
                &&& kp.spec_pkcs8() == pkcs8_bytes@
                &&& ecdsa_pkcs8_curve(pkcs8_bytes@) == curve
                &&& kp.spec_public_key() == ecdsa_pkcs8_public_key(curve, pkcs8_bytes@)
                &&& spec_uncompressed(curve, kp.spec_public_key())
                &&& kp.spec_well_formed()
            },
            res matches Err(e) ==> e == EcdsaError::KeyRejected,
    {
        match parse_pkcs8(curve, pkcs8_bytes) {
            Some(public_key) => Ok(
                EcdsaKeyPair {
                    curve,
                    pkcs8_bytes: vstd::slice::slice_to_vec(pkcs8_bytes),
                    public_key,
                },
            ),
            None => Err(EcdsaError::KeyRejected),
        }
    }

    /// The public key.
    pub fn pub_key(&self) -> (key: &[u8])
        ensures
            key@ == self.spec_public_key(),
    {
        self.public_key.as_slice()
    }

    /// The PKCS#8 document, which holds the private key.
    pub fn prv_key(&self) -> (key: &[u8])
        ensures
            key@ == self.spec_pkcs8(),
    {
        self.pkcs8_bytes.as_slice()
    }

    /// A signature of `msg`, which verifies under the public key.
    pub fn sign(&self, msg: &[u8]) -> (res: Result<Vec<u8>, EcdsaError>)
        ensures
            res matches Ok(sig) ==> ecdsa_signature_valid(
                self.spec_curve(),
                self.spec_public_key(),
                msg@,
                sig@,
            ),
            res matches Err(e) ==> e == EcdsaError::SigningFailed,
    {
        proof {
            use_type_invariant(self);
        }
        match sign_pkcs8(self.curve, self.pkcs8_bytes.as_slice(), msg) {
            Some(sig) => Ok(sig),
            None => Err(EcdsaError::SigningFailed),
        }
    }
}

/// A fresh P-256 key pair as its public key and PKCS#8 document.
pub fn generate_key_pair() -> (res: Result<(Vec<u8>, Vec<u8>), EcdsaError>)
    ensures
        res matches Ok(pair) ==> {
            &&& pair.0@ == ecdsa_pkcs8_public_key(EcdsaCurve::P256, pair.1@)
            &&& ecdsa_pkcs8_curve(pair.1@) == EcdsaCurve::P256
            &&& spec_uncompressed(EcdsaCurve::P256, pair.0@)
        },
        res matches Err(e) ==> e == EcdsaError::GenerationFailed || e == EcdsaError::KeyRejected,
{
    let key_pair = EcdsaKeyPair::new()?;
    let pub_key = vstd::slice::slice_to_vec(key_pair.pub_key());
    let priv_key = vstd::slice::slice_to_vec(key_pair.prv_key());
    Ok((pub_key, priv_key))
}

fn sign_bytes(curve: EcdsaCurve, priv_key: &[u8], bytes: &[u8]) -> (res: Result<
    Vec<u8>,
    EcdsaError,
>)
    ensures
        res matches Ok(sig) ==> ecdsa_signature_valid(
            curve,
            ecdsa_pkcs8_public_key(curve, priv_key@),
            bytes@,
            sig@,
        ),
        res matches Err(e) ==> e == EcdsaError::KeyRejected || e == EcdsaError::SigningFailed,
{
    let key_pair = EcdsaKeyPair::from_bytes(priv_key, curve)?;
    key_pair.sign(bytes)
}

fn verify_signature(curve: EcdsaCurve, pub_key: &[u8], bytes: &[u8], sig: &[u8]) -> (res: Result<
    (),
    EcdsaError,
>)
    ensures
        res is Ok <==> ecdsa_signature_valid(curve, pub_key@, bytes@, sig@),
        res matches Err(e) ==> e == EcdsaError::InvalidSignature,
{
    if verify_with_public_key(curve, pub_key, bytes, sig) {
        Ok(())
    } else {
        Err(EcdsaError::InvalidSignature)
    }
}

/// Signs `bytes` with the P-256 key pair of the PKCS#8 document `priv_key`.
pub fn sign_bytes_p256(priv_key: &[u8], bytes: &[u8]) -> (res: Result<Vec<u8>, EcdsaError>)
    ensures
        res matches Ok(sig) ==> ecdsa_signature_valid(
            EcdsaCurve::P256,
            ecdsa_pkcs8_public_key(EcdsaCurve::P256, priv_key@),
            bytes@,
            sig@,
        ),
        res matches Err(e) ==> e == EcdsaError::KeyRejected || e == EcdsaError::SigningFailed,
{
    sign_bytes(EcdsaCurve::P256, priv_key, bytes)
}

/// Verifies a P-256 signature of `bytes` under `pub_key`.
pub fn verify_signature_p256(pub_key: &[u8], bytes: &[u8], sig: &[u8]) -> (res: Result<
    (),
    EcdsaError,
>)
    ensures
        res is Ok <==> ecdsa_signature_valid(EcdsaCurve::P256, pub_key@, bytes@, sig@),
        res matches Err(e) ==> e == EcdsaError::InvalidSignature,
{
    verify_signature(EcdsaCurve::P256, pub_key, bytes, sig)
}

/// Signs `bytes` with the P-384 key pair of the PKCS#8 document `priv_key`.
pub fn sign_bytes_p384(priv_key: &[u8], bytes: &[u8]) -> (res: Result<Vec<u8>, EcdsaError>)
    ensures
        res matches Ok(sig) ==> ecdsa_signature_valid(
            EcdsaCurve::P384,
            ecdsa_pkcs8_public_key(EcdsaCurve::P384, priv_key@),
            bytes@,
            sig@,
        ),
        res matches Err(e) ==> e == EcdsaError::KeyRejected || e == EcdsaError::SigningFailed,
{
    sign_bytes(EcdsaCurve::P384, priv_key, bytes)
}

/// Verifies a P-384 signature of `bytes` under `pub_key`.
pub fn verify_signature_p384(pub_key: &[u8], bytes: &[u8], sig: &[u8]) -> (res: Result<
    (),
    EcdsaError,
>)
    ensures
        res is Ok <==> ecdsa_signature_valid(EcdsaCurve::P384, pub_key@, bytes@, sig@),
        res matches Err(e) ==> e == EcdsaError::InvalidSignature,
{
    verify_signature(EcdsaCurve::P384, pub_key, bytes, sig)
}

} // verus!
