//! X.509 v3 certificates for TLS-based remote attestation: an end
//! certificate that carries the attestation report and two DNS names in its
//! extensions, and an intermediate CA certificate, both with a P-256 subject
//! key, written in DER and signed by an ECDSA key pair; and the issuer,
//! subject, public key and report read back from a certificate in that
//! layout.
use vstd::prelude::*;

use crate::attestation::CertInfo;
use crate::date::{spec_datetime_text, spec_from_timestamp, DateTime};
use crate::der::{
    lemma_elements_cons, lemma_elements_len, lemma_elements_push, lemma_read_elements,
    lemma_read_tlv, push_bytes, push_tlv, read_elements, read_tlv, spec_contents, spec_elements,
    spec_read_elements, spec_read_tlv, spec_short_tag, spec_tlv,
};
use crate::ecdsa::{ecdsa_signature_valid, EcdsaCurve, EcdsaKeyPair};
use vstd::utf8::{decode_utf8, encode_utf8, valid_utf8};

verus! {

pub const TAG_BOOLEAN: u8 = 0x01;

pub const TAG_INTEGER: u8 = 0x02;

pub const TAG_BIT_STRING: u8 = 0x03;

pub const TAG_OCTET_STRING: u8 = 0x04;

pub const TAG_OID: u8 = 0x06;

pub const TAG_UTF8_STRING: u8 = 0x0c;

pub const TAG_UTC_TIME: u8 = 0x17;

pub const TAG_SEQUENCE: u8 = 0x30;

pub const TAG_SET: u8 = 0x31;

/// The explicit tag `[0]` of the version.
pub const TAG_VERSION: u8 = 0xa0;

/// The explicit tag `[3]` of the extensions.
pub const TAG_EXTENSIONS: u8 = 0xa3;

/// The implicit tag `[2]` of a DNS name among the alternative names.
pub const TAG_DNS_NAME: u8 = 0x82;

/// The signature algorithm a certificate names.
#[derive(Debug, Clone, Copy, PartialEq, Eq, Structural)]
pub enum CertSignAlgo {
    /// ecdsa-with-SHA256 (1.2.840.10045.4.3.2).
    EcdsaSha256,
    /// ecdsa-with-SHA384 (1.2.840.10045.4.3.3).
    EcdsaSha384,
}

/// The content of the object identifier of a signature algorithm.
pub open spec fn spec_algo_oid(algo: CertSignAlgo) -> Seq<u8> {
    match algo {
        CertSignAlgo::EcdsaSha256 => seq![0x2au8, 0x86, 0x48, 0xce, 0x3d, 0x04, 0x03, 0x02],
        CertSignAlgo::EcdsaSha384 => seq![0x2au8, 0x86, 0x48, 0xce, 0x3d, 0x04, 0x03, 0x03],
    }
}

/// commonName (2.5.4.3).
pub open spec fn spec_oid_common_name() -> Seq<u8> {
    seq![0x55u8, 0x04, 0x03]
}

/// id-ecPublicKey (1.2.840.10045.2.1).
pub open spec fn spec_oid_ec_public_key() -> Seq<u8> {
    seq![0x2au8, 0x86, 0x48, 0xce, 0x3d, 0x02, 0x01]
}

/// prime256v1 (1.2.840.10045.3.1.7).
pub open spec fn spec_oid_prime256v1() -> Seq<u8> {
    seq![0x2au8, 0x86, 0x48, 0xce, 0x3d, 0x03, 0x01, 0x07]
}

/// The comment extension (2.16.840.1.113730.1.13) that carries the report.
pub open spec fn spec_oid_comment() -> Seq<u8> {
    seq![0x60u8, 0x86, 0x48, 0x01, 0x86, 0xf8, 0x42, 0x01, 0x0d]
}

/// subjectAltName (2.5.29.17).
pub open spec fn spec_oid_subject_alt_name() -> Seq<u8> {
    seq![0x55u8, 0x1d, 0x11]
}

/// basicConstraints (2.5.29.19).
pub open spec fn spec_oid_basic_constraints() -> Seq<u8> {
    seq![0x55u8, 0x1d, 0x13]
}

/// The value of the basic constraints of a CA: a sequence holding `TRUE`.
pub open spec fn spec_ca_constraints() -> Seq<u8> {
    seq![0x30u8, 0x03, 0x01, 0x01, 0xff]
}

/// The content of a name that is one common name `cn`.
pub open spec fn spec_name(cn: Seq<u8>) -> Seq<u8> {
    spec_tlv(
        TAG_SET,
        spec_tlv(
            TAG_SEQUENCE,
            spec_elements(seq![TAG_OID, TAG_UTF8_STRING], seq![spec_oid_common_name(), cn]),
        ),
    )
}

/// A date time as the content of a UTCTime: its `YYMMDDhhmmssZ` text.
pub open spec fn spec_utc_time(dt: DateTime) -> Seq<u8> {
    encode_utf8(spec_datetime_text(dt))
}

/// The content of the validity from `issue` to `expire`.
pub open spec fn spec_validity(issue: DateTime, expire: DateTime) -> Seq<u8> {
    spec_elements(seq![TAG_UTC_TIME, TAG_UTC_TIME], seq![spec_utc_time(issue), spec_utc_time(expire)])
}

/// The content of the subject public key info of the P-256 key `key`.
pub open spec fn spec_public_key_info(key: Seq<u8>) -> Seq<u8> {
    spec_elements(
        seq![TAG_SEQUENCE, TAG_BIT_STRING],
        seq![
            spec_elements(
                seq![TAG_OID, TAG_OID],
                seq![spec_oid_ec_public_key(), spec_oid_prime256v1()],
            ),
            seq![0u8] + key,
        ],
    )
}

/// A non-critical extension `oid` with the value `value`.
pub open spec fn spec_extension(oid: Seq<u8>, value: Seq<u8>) -> Seq<u8> {
    spec_tlv(TAG_SEQUENCE, spec_elements(seq![TAG_OID, TAG_OCTET_STRING], seq![oid, value]))
}

/// The value of the alternative names: the DNS names `dns0` and `dns1`.
pub open spec fn spec_dns_names(dns0: Seq<u8>, dns1: Seq<u8>) -> Seq<u8> {
    spec_tlv(TAG_SEQUENCE, spec_elements(seq![TAG_DNS_NAME, TAG_DNS_NAME], seq![dns0, dns1]))
}

/// The critical basic-constraints extension of a CA.
pub open spec fn spec_ca_extension() -> Seq<u8> {
    spec_tlv(
        TAG_SEQUENCE,
        spec_elements(
            seq![TAG_OID, TAG_BOOLEAN, TAG_OCTET_STRING],
            seq![spec_oid_basic_constraints(), seq![0xffu8], spec_ca_constraints()],
        ),
    )
}

/// The to-be-signed part of a version 3 certificate with serial number 1:
/// the signature algorithm, the issuer's and the subject's common names, the
/// validity, the subject's P-256 key and the run of extensions `extensions`.
pub open spec fn spec_tbs(
    algo: CertSignAlgo,
    issuer: Seq<u8>,
    subject: Seq<u8>,
    issue: DateTime,
    expire: DateTime,
    key: Seq<u8>,
    extensions: Seq<u8>,
) -> Seq<u8> {
    spec_tlv(
        TAG_SEQUENCE,
        spec_elements(
            spec_tbs_tags(),
            spec_tbs_contents(algo, issuer, subject, issue, expire, key, extensions),
        ),
    )
}

/// The contents of the eight parts of the to-be-signed part, whose tags are
/// `spec_tbs_tags`: version 3 (the integer 2), serial number 1, the
/// algorithm, the names, the validity, the key and the extensions.
pub open spec fn spec_tbs_contents(
    algo: CertSignAlgo,
    issuer: Seq<u8>,
    subject: Seq<u8>,
    issue: DateTime,
    expire: DateTime,
    key: Seq<u8>,
    extensions: Seq<u8>,
) -> Seq<Seq<u8>> {
    seq![
        spec_tlv(TAG_INTEGER, seq![2u8]),
        seq![1u8],
        spec_tlv(TAG_OID, spec_algo_oid(algo)),
        spec_name(issuer),
        spec_validity(issue, expire),
        spec_name(subject),
        spec_public_key_info(key),
        spec_tlv(TAG_SEQUENCE, extensions),
    ]
}

/// The to-be-signed part of an end certificate: signed with ECDSA-SHA256,
/// carrying `payload` (the attestation report) in a comment extension and
/// the DNS names `dns0`, `dns1` as alternative names.
pub open spec fn spec_tbs_with_extension(
    key: Seq<u8>,
    issuer: Seq<char>,
    subject: Seq<char>,
    dns0: Seq<char>,
    dns1: Seq<char>,
    payload: Seq<u8>,
    issue: DateTime,
    expire: DateTime,
) -> Seq<u8> {
    spec_tbs(
        CertSignAlgo::EcdsaSha256,
        encode_utf8(issuer),
        encode_utf8(subject),
        issue,
        expire,
        key,
        spec_extension(spec_oid_comment(), payload) + spec_extension(
            spec_oid_subject_alt_name(),
            spec_dns_names(encode_utf8(dns0), encode_utf8(dns1)),
        ),
    )
}

/// The to-be-signed part of an intermediate CA certificate: signed with
/// ECDSA-SHA384, with the basic constraints of a CA.
pub open spec fn spec_tbs_intermediate(
    key: Seq<u8>,
    issuer: Seq<char>,
    subject: Seq<char>,
    issue: DateTime,
    expire: DateTime,
) -> Seq<u8> {
    spec_tbs(
        CertSignAlgo::EcdsaSha384,
        encode_utf8(issuer),
        encode_utf8(subject),
        issue,
        expire,
        key,
        spec_ca_extension(),
    )
}

/// The certificate made of the to-be-signed part `tbs`, the algorithm
/// `algo` and the signature `signature`.
pub open spec fn spec_certificate(tbs: Seq<u8>, algo: CertSignAlgo, signature: Seq<u8>) -> Seq<u8> {
    spec_tlv(
        TAG_SEQUENCE,
        tbs + spec_elements(
            seq![TAG_SEQUENCE, TAG_BIT_STRING],
            seq![spec_tlv(TAG_OID, spec_algo_oid(algo)), seq![0u8] + signature],
        ),
    )
}

/// Appends an element to a run whose tags and contents are followed in ghost.
fn push_element(
    run: &mut Vec<u8>,
    tags: Ghost<Seq<u8>>,
    contents: Ghost<Seq<Seq<u8>>>,
    tag: u8,
    content: &[u8],
)
    requires
        old(run)@ == spec_elements(tags@, contents@),
        tags@.len() == contents@.len(),
    ensures
        final(run)@ == spec_elements(tags@.push(tag), contents@.push(content@)),
{
    push_tlv(run, tag, content);
    proof {
        lemma_elements_push(tags@, contents@, tag, content@);
    }
}

proof fn lemma_no_elements()
    ensures
        spec_elements(Seq::empty(), Seq::empty()) == Seq::<u8>::empty(),
{
}

/// The object identifier of a signature algorithm.
fn algo_oid(algo: CertSignAlgo) -> (oid: Vec<u8>)
    ensures
        oid@ == spec_algo_oid(algo),
{
    let oid = match algo {
        CertSignAlgo::EcdsaSha256 => vec![0x2au8, 0x86, 0x48, 0xce, 0x3d, 0x04, 0x03, 0x02],
        CertSignAlgo::EcdsaSha384 => vec![0x2au8, 0x86, 0x48, 0xce, 0x3d, 0x04, 0x03, 0x03],
    };
    assert(oid@ =~= spec_algo_oid(algo));
    oid
}

/// The content of a name that is the common name `cn`.
fn name(cn: &[u8]) -> (name: Vec<u8>)
    ensures
        name@ == spec_name(cn@),
{
    let oid = vec![0x55u8, 0x04, 0x03];
    assert(oid@ =~= spec_oid_common_name());
    let mut attribute: Vec<u8> = Vec::new();
    proof {
        lemma_no_elements();
    }
    let ghost t0: Seq<u8> = Seq::empty();
    let ghost c0: Seq<Seq<u8>> = Seq::empty();
    push_element(&mut attribute, Ghost(t0), Ghost(c0), TAG_OID, oid.as_slice());
    let ghost t1 = t0.push(TAG_OID);
    let ghost c1 = c0.push(oid@);
    push_element(&mut attribute, Ghost(t1), Ghost(c1), TAG_UTF8_STRING, cn);
    assert(t1.push(TAG_UTF8_STRING) =~= seq![TAG_OID, TAG_UTF8_STRING]);
    assert(c1.push(cn@) =~= seq![spec_oid_common_name(), cn@]);
    let mut rdn: Vec<u8> = Vec::new();
    push_tlv(&mut rdn, TAG_SEQUENCE, attribute.as_slice());
    let mut name: Vec<u8> = Vec::new();
    push_tlv(&mut name, TAG_SET, rdn.as_slice());
    assert(name@ =~= spec_name(cn@));
    name
}

/// The `YYMMDDhhmmssZ` text of a date time, as bytes.
fn utc_time(dt: &DateTime) -> (bytes: Vec<u8>)
    ensures
        bytes@ == spec_utc_time(*dt),
{
    let text = dt.to_string();
    vstd::slice::slice_to_vec(text.as_str().as_bytes())
}

/// The content of the validity from `issue` to `expire`.
fn validity(issue: &DateTime, expire: &DateTime) -> (run: Vec<u8>)
    ensures
        run@ == spec_validity(*issue, *expire),
{
    let from = utc_time(issue);
    let until = utc_time(expire);
    let mut run: Vec<u8> = Vec::new();
    proof {
        lemma_no_elements();
    }
    let ghost t0: Seq<u8> = Seq::empty();
    let ghost c0: Seq<Seq<u8>> = Seq::empty();
    push_element(&mut run, Ghost(t0), Ghost(c0), TAG_UTC_TIME, from.as_slice());
    let ghost t1 = t0.push(TAG_UTC_TIME);
    let ghost c1 = c0.push(from@);
    push_element(&mut run, Ghost(t1), Ghost(c1), TAG_UTC_TIME, until.as_slice());
    assert(t1.push(TAG_UTC_TIME) =~= seq![TAG_UTC_TIME, TAG_UTC_TIME]);
    assert(c1.push(until@) =~= seq![spec_utc_time(*issue), spec_utc_time(*expire)]);
    run
}

/// The content of the subject public key info of the P-256 key `key`.
fn public_key_info(key: &[u8]) -> (run: Vec<u8>)
    ensures
        run@ == spec_public_key_info(key@),
{
    let ec = vec![0x2au8, 0x86, 0x48, 0xce, 0x3d, 0x02, 0x01];
    let curve = vec![0x2au8, 0x86, 0x48, 0xce, 0x3d, 0x03, 0x01, 0x07];
    assert(ec@ =~= spec_oid_ec_public_key());
    assert(curve@ =~= spec_oid_prime256v1());
    proof {
        lemma_no_elements();
    }
    let ghost t0: Seq<u8> = Seq::empty();
    let ghost c0: Seq<Seq<u8>> = Seq::empty();
    let mut algorithm: Vec<u8> = Vec::new();
    push_element(&mut algorithm, Ghost(t0), Ghost(c0), TAG_OID, ec.as_slice());
    let ghost t1 = t0.push(TAG_OID);
    let ghost c1 = c0.push(ec@);
    push_element(&mut algorithm, Ghost(t1), Ghost(c1), TAG_OID, curve.as_slice());
    assert(t1.push(TAG_OID) =~= seq![TAG_OID, TAG_OID]);
    assert(c1.push(curve@) =~= seq![spec_oid_ec_public_key(), spec_oid_prime256v1()]);
    let mut bits: Vec<u8> = Vec::new();
    bits.push(0u8);
    push_bytes(&mut bits, key);
    assert(bits@ =~= seq![0u8] + key@);
    let mut run: Vec<u8> = Vec::new();
    push_element(&mut run, Ghost(t0), Ghost(c0), TAG_SEQUENCE, algorithm.as_slice());
    let ghost u1 = t0.push(TAG_SEQUENCE);
    let ghost d1 = c0.push(algorithm@);
    push_element(&mut run, Ghost(u1), Ghost(d1), TAG_BIT_STRING, bits.as_slice());
    assert(u1.push(TAG_BIT_STRING) =~= seq![TAG_SEQUENCE, TAG_BIT_STRING]);
    assert(d1.push(bits@) =~= seq![algorithm@, seq![0u8] + key@]);
    assert(run@ =~= spec_public_key_info(key@));
    run
}

/// Appends the non-critical extension `oid` with the value `value`.
fn push_extension(out: &mut Vec<u8>, oid: &[u8], value: &[u8])
    ensures
        final(out)@ == old(out)@ + spec_extension(oid@, value@),
{
    proof {
        lemma_no_elements();
    }
    let ghost t0: Seq<u8> = Seq::empty();
    let ghost c0: Seq<Seq<u8>> = Seq::empty();
    let mut run: Vec<u8> = Vec::new();
    push_element(&mut run, Ghost(t0), Ghost(c0), TAG_OID, oid);
    let ghost t1 = t0.push(TAG_OID);
    let ghost c1 = c0.push(oid@);
    push_element(&mut run, Ghost(t1), Ghost(c1), TAG_OCTET_STRING, value);
    assert(t1.push(TAG_OCTET_STRING) =~= seq![TAG_OID, TAG_OCTET_STRING]);
    assert(c1.push(value@) =~= seq![oid@, value@]);
    push_tlv(out, TAG_SEQUENCE, run.as_slice());
}

/// The value of the alternative names `dns0`, `dns1`.
fn dns_names(dns0: &[u8], dns1: &[u8]) -> (value: Vec<u8>)
    ensures
        value@ == spec_dns_names(dns0@, dns1@),
{
    proof {
        lemma_no_elements();
    }
    let ghost t0: Seq<u8> = Seq::empty();
    let ghost c0: Seq<Seq<u8>> = Seq::empty();
    let mut run: Vec<u8> = Vec::new();
    push_element(&mut run, Ghost(t0), Ghost(c0), TAG_DNS_NAME, dns0);
    let ghost t1 = t0.push(TAG_DNS_NAME);
    let ghost c1 = c0.push(dns0@);
    push_element(&mut run, Ghost(t1), Ghost(c1), TAG_DNS_NAME, dns1);
    assert(t1.push(TAG_DNS_NAME) =~= seq![TAG_DNS_NAME, TAG_DNS_NAME]);
    assert(c1.push(dns1@) =~= seq![dns0@, dns1@]);
    let mut value: Vec<u8> = Vec::new();
    push_tlv(&mut value, TAG_SEQUENCE, run.as_slice());
    assert(value@ =~= spec_dns_names(dns0@, dns1@));
    value
}

/// The critical basic-constraints extension of a CA.
fn ca_extension() -> (ext: Vec<u8>)
    ensures
        ext@ == spec_ca_extension(),
{
    let oid = vec![0x55u8, 0x1d, 0x13];
    let critical = vec![0xffu8];
    let constraints = vec![0x30u8, 0x03, 0x01, 0x01, 0xff];
    assert(oid@ =~= spec_oid_basic_constraints());
    assert(critical@ =~= seq![0xffu8]);
    assert(constraints@ =~= spec_ca_constraints());
    proof {
        lemma_no_elements();
    }
    let ghost t0: Seq<u8> = Seq::empty();
    let ghost c0: Seq<Seq<u8>> = Seq::empty();
    let mut run: Vec<u8> = Vec::new();
    push_element(&mut run, Ghost(t0), Ghost(c0), TAG_OID, oid.as_slice());
    let ghost t1 = t0.push(TAG_OID);
    let ghost c1 = c0.push(oid@);
    push_element(&mut run, Ghost(t1), Ghost(c1), TAG_BOOLEAN, critical.as_slice());
    let ghost t2 = t1.push(TAG_BOOLEAN);
    let ghost c2 = c1.push(critical@);
    push_element(&mut run, Ghost(t2), Ghost(c2), TAG_OCTET_STRING, constraints.as_slice());
    assert(t2.push(TAG_OCTET_STRING) =~= seq![TAG_OID, TAG_BOOLEAN, TAG_OCTET_STRING]);
    assert(c2.push(constraints@) =~= seq![
        spec_oid_basic_constraints(),
        seq![0xffu8],
        spec_ca_constraints(),
    ]);
    let mut ext: Vec<u8> = Vec::new();
    push_tlv(&mut ext, TAG_SEQUENCE, run.as_slice());
    assert(ext@ =~= spec_ca_extension());
    ext
}

/// The to-be-signed part of a certificate; see `spec_tbs`.
fn tbs(
    algo: CertSignAlgo,
    issuer: &[u8],
    subject: &[u8],
    issue: &DateTime,
    expire: &DateTime,
    key: &[u8],
    extensions: &[u8],
) -> (tbs: Vec<u8>)
    ensures
        tbs@ == spec_tbs(algo, issuer@, subject@, *issue, *expire, key@, extensions@),
{
    let mut version: Vec<u8> = Vec::new();
    let two = vec![2u8];
    push_tlv(&mut version, TAG_INTEGER, two.as_slice());
    let serial = vec![1u8];
    let oid = algo_oid(algo);
    let mut algorithm: Vec<u8> = Vec::new();
    push_tlv(&mut algorithm, TAG_OID, oid.as_slice());
    let issuer_name = name(issuer);
    let valid = validity(issue, expire);
    let subject_name = name(subject);
    let key_info = public_key_info(key);
    let mut exts: Vec<u8> = Vec::new();
    push_tlv(&mut exts, TAG_SEQUENCE, extensions);
    proof {
        lemma_no_elements();
    }
    let ghost t0: Seq<u8> = Seq::empty();
    let ghost c0: Seq<Seq<u8>> = Seq::empty();
    let mut run: Vec<u8> = Vec::new();
    push_element(&mut run, Ghost(t0), Ghost(c0), TAG_VERSION, version.as_slice());
    let ghost t1 = t0.push(TAG_VERSION);
    let ghost c1 = c0.push(version@);
    push_element(&mut run, Ghost(t1), Ghost(c1), TAG_INTEGER, serial.as_slice());
    let ghost t2 = t1.push(TAG_INTEGER);
    let ghost c2 = c1.push(serial@);
    push_element(&mut run, Ghost(t2), Ghost(c2), TAG_SEQUENCE, algorithm.as_slice());
    let ghost t3 = t2.push(TAG_SEQUENCE);
    let ghost c3 = c2.push(algorithm@);
    push_element(&mut run, Ghost(t3), Ghost(c3), TAG_SEQUENCE, issuer_name.as_slice());
    let ghost t4 = t3.push(TAG_SEQUENCE);
    let ghost c4 = c3.push(issuer_name@);
    push_element(&mut run, Ghost(t4), Ghost(c4), TAG_SEQUENCE, valid.as_slice());
    let ghost t5 = t4.push(TAG_SEQUENCE);
    let ghost c5 = c4.push(valid@);
    push_element(&mut run, Ghost(t5), Ghost(c5), TAG_SEQUENCE, subject_name.as_slice());
    let ghost t6 = t5.push(TAG_SEQUENCE);
    let ghost c6 = c5.push(subject_name@);
    push_element(&mut run, Ghost(t6), Ghost(c6), TAG_SEQUENCE, key_info.as_slice());
    let ghost t7 = t6.push(TAG_SEQUENCE);
    let ghost c7 = c6.push(key_info@);
    push_element(&mut run, Ghost(t7), Ghost(c7), TAG_EXTENSIONS, exts.as_slice());
    assert(two@ =~= seq![2u8]);
    assert(serial@ =~= seq![1u8]);
    assert(t7.push(TAG_EXTENSIONS) =~= spec_tbs_tags());
    assert(c7.push(exts@) =~= spec_tbs_contents(
        algo,
        issuer@,
        subject@,
        *issue,
        *expire,
        key@,
        extensions@,
    ));
    let mut tbs: Vec<u8> = Vec::new();
    push_tlv(&mut tbs, TAG_SEQUENCE, run.as_slice());
    tbs
}

/// The certificate made of the to-be-signed part `tbs`, the algorithm
/// `algo` and the signature `signature`.
fn certificate(tbs: &[u8], algo: CertSignAlgo, signature: &[u8]) -> (der: Vec<u8>)
    ensures
        der@ == spec_certificate(tbs@, algo, signature@),
{
    let oid = algo_oid(algo);
    let mut algorithm: Vec<u8> = Vec::new();
    push_tlv(&mut algorithm, TAG_OID, oid.as_slice());
    let mut bits: Vec<u8> = Vec::new();
    bits.push(0u8);
    push_bytes(&mut bits, signature);
    assert(bits@ =~= seq![0u8] + signature@);
    proof {
        lemma_no_elements();
    }
    let ghost t0: Seq<u8> = Seq::empty();
    let ghost c0: Seq<Seq<u8>> = Seq::empty();
    let mut run: Vec<u8> = Vec::new();
    push_element(&mut run, Ghost(t0), Ghost(c0), TAG_SEQUENCE, algorithm.as_slice());
    let ghost t1 = t0.push(TAG_SEQUENCE);
    let ghost c1 = c0.push(algorithm@);
    push_element(&mut run, Ghost(t1), Ghost(c1), TAG_BIT_STRING, bits.as_slice());
    assert(t1.push(TAG_BIT_STRING) =~= seq![TAG_SEQUENCE, TAG_BIT_STRING]);
    assert(c1.push(bits@) =~= seq![spec_tlv(TAG_OID, spec_algo_oid(algo)), seq![0u8] + signature@]);
    let mut content: Vec<u8> = Vec::new();
    push_bytes(&mut content, tbs);
    push_bytes(&mut content, run.as_slice());
    let mut der: Vec<u8> = Vec::new();
    push_tlv(&mut der, TAG_SEQUENCE, content.as_slice());
    der
}

/// The to-be-signed part of an end certificate for the P-256 key `pub_key`:
/// issued by `issuer` to `subject`, valid from `issue` to `expire`, with the
/// attestation report `payload` in a comment extension and the two DNS
/// names `alter_dns_names` as alternative names; signed with ECDSA-SHA256.
pub fn tbs_certificate_with_extension(
    pub_key: &[u8],
    issuer: &str,
    subject: &str,
    alter_dns_names: [&str; 2],
    payload: &[u8],
    issue: &DateTime,
    expire: &DateTime,
) -> (tbs: Vec<u8>)
    ensures
        tbs@ == spec_tbs_with_extension(
            pub_key@,
            issuer@,
            subject@,
            alter_dns_names@[0]@,
            alter_dns_names@[1]@,
            payload@,
            *issue,
            *expire,
        ),
{
    let comment = vec![0x60u8, 0x86, 0x48, 0x01, 0x86, 0xf8, 0x42, 0x01, 0x0d];
    let alt_name = vec![0x55u8, 0x1d, 0x11];
    assert(comment@ =~= spec_oid_comment());
    assert(alt_name@ =~= spec_oid_subject_alt_name());
    let names = dns_names(alter_dns_names[0].as_bytes(), alter_dns_names[1].as_bytes());
    let mut extensions: Vec<u8> = Vec::new();
    push_extension(&mut extensions, comment.as_slice(), payload);
    push_extension(&mut extensions, alt_name.as_slice(), names.as_slice());
    tbs(
        CertSignAlgo::EcdsaSha256,
        issuer.as_bytes(),
        subject.as_bytes(),
        issue,
        expire,
        pub_key,
        extensions.as_slice(),
    )
}

/// The to-be-signed part of an intermediate CA certificate for the P-256
/// key `pub_key`: issued by `issuer` to `subject`, valid from `issue` to
/// `expire`, with the basic constraints of a CA; signed with ECDSA-SHA384.
pub fn tbs_intermediate(
    pub_key: &[u8],
    issuer: &str,
    subject: &str,
    issue: &DateTime,
    expire: &DateTime,
) -> (tbs: Vec<u8>)
    ensures
        tbs@ == spec_tbs_intermediate(pub_key@, issuer@, subject@, *issue, *expire),
{
    let ext = ca_extension();
    tbs(
        CertSignAlgo::EcdsaSha384,
        issuer.as_bytes(),
        subject.as_bytes(),
        issue,
        expire,
        pub_key,
        ext.as_slice(),
    )
}

/// Whether `der` is the certificate of `tbs` and `algo` with a signature of
/// `tbs` that is valid under `public_key` on `curve`.
pub open spec fn spec_signed_certificate(
    der: Seq<u8>,
    tbs: Seq<u8>,
    algo: CertSignAlgo,
    curve: EcdsaCurve,
    public_key: Seq<u8>,
) -> bool {
    exists|signature: Seq<u8>|
        ecdsa_signature_valid(curve, public_key, tbs, signature) && der == #[trigger] spec_certificate(
            tbs,
            algo,
            signature,
        )
}

/// Why a certificate could not be made.
#[derive(Debug, Clone, Copy, PartialEq, Eq, Structural)]
pub enum CertError {
    /// The validity has no UTCTime form: a timestamp before 1970 or past
    /// what a date time holds.
    InvalidTime,
    /// The key pair failed to sign.
    SigningFailed,
}

/// The validity of a certificate made at `now` (seconds since the Unix
/// epoch) for `cert_valid_seconds` seconds: from ten seconds before `now`
/// to `cert_valid_seconds` after that; `None` when either end is negative,
/// out of 64 bits or not a valid date time.
pub open spec fn spec_valid_time_range(now: int, cert_valid_seconds: int) -> Option<
    (DateTime, DateTime),
> {
    let issue = now - 10;
    let expire = issue + cert_valid_seconds;
    if 0 <= issue && 0 <= expire <= i64::MAX && spec_from_timestamp(issue).spec_is_valid()
        && spec_from_timestamp(expire).spec_is_valid() {
        Some((spec_from_timestamp(issue), spec_from_timestamp(expire)))
    } else {
        None
    }
}

/// The issue and expiry date times of a certificate made at `now` and
/// valid for `cert_valid_seconds` seconds; see `spec_valid_time_range`.
pub fn valid_time_range(now: i64, cert_valid_seconds: i64) -> (range: Option<(DateTime, DateTime)>)
    ensures
        range == spec_valid_time_range(now as int, cert_valid_seconds as int),
{
    if now < 10 {
        return None;
    }
    let issue_ts = now - 10;
    if cert_valid_seconds > 0 && issue_ts > i64::MAX - cert_valid_seconds {
        return None;
    }
    let expire_ts = issue_ts + cert_valid_seconds;
    if expire_ts < 0 {
        return None;
    }
    let issue = DateTime::from_timestamp(issue_ts);
    let expire = DateTime::from_timestamp(expire_ts);
    if !issue.is_valid() || !expire.is_valid() {
        return None;
    }
    Some((issue, expire))
}

/// Makes an end certificate for remote attestation at `now` (seconds since
/// the Unix epoch): the to-be-signed part of `tbs_certificate_with_extension`
/// over the validity of `valid_time_range`, signed by `key_pair` and named
/// ECDSA-SHA256. `InvalidTime` when the validity has no UTCTime form;
/// `SigningFailed` when the key pair fails to sign.
pub fn sign_csr_with_extension(
    key_pair: &EcdsaKeyPair,
    pub_key: &[u8],
    issuer: &str,
    subject: &str,
    alter_dns_names: [&str; 2],
    payload: &[u8],
    cert_valid_seconds: i64,
    now: i64,
) -> (res: Result<Vec<u8>, CertError>)
    ensures
        match spec_valid_time_range(now as int, cert_valid_seconds as int) {
            None => res matches Err(e) && e == CertError::InvalidTime,
            Some((issue, expire)) => match res {
                Ok(der) => spec_signed_certificate(
                    der@,
                    spec_tbs_with_extension(
                        pub_key@,
                        issuer@,
                        subject@,
                        alter_dns_names@[0]@,
                        alter_dns_names@[1]@,
                        payload@,
                        issue,
                        expire,
                    ),
                    CertSignAlgo::EcdsaSha256,
                    key_pair.spec_curve(),
                    key_pair.spec_public_key(),
                ),
                Err(e) => e == CertError::SigningFailed,
            },
        },
{
    let (issue, expire) = match valid_time_range(now, cert_valid_seconds) {
        Some(range) => range,
        None => return Err(CertError::InvalidTime),
    };
    let tbs = tbs_certificate_with_extension(
        pub_key,
        issuer,
        subject,
        alter_dns_names,
        payload,
        &issue,
        &expire,
    );
    match key_pair.sign(tbs.as_slice()) {
        Ok(signature) => {
            let der = certificate(tbs.as_slice(), CertSignAlgo::EcdsaSha256, signature.as_slice());
            assert(der@ == spec_certificate(tbs@, CertSignAlgo::EcdsaSha256, signature@));
            Ok(der)
        },
        Err(_) => Err(CertError::SigningFailed),
    }
}

/// Makes an intermediate CA certificate at `now` (seconds since the Unix
/// epoch): the to-be-signed part of `tbs_intermediate` over the validity of
/// `valid_time_range`, signed by `key_pair` and named ECDSA-SHA384.
/// `InvalidTime` when the validity has no UTCTime form; `SigningFailed` when
/// the key pair fails to sign.
pub fn sign_intermediate(
    key_pair: &EcdsaKeyPair,
    pub_key: &[u8],
    issuer: &str,
    subject: &str,
    cert_valid_seconds: i64,
    now: i64,
) -> (res: Result<Vec<u8>, CertError>)
    ensures
        match spec_valid_time_range(now as int, cert_valid_seconds as int) {
            None => res matches Err(e) && e == CertError::InvalidTime,
            Some((issue, expire)) => match res {
                Ok(der) => spec_signed_certificate(
                    der@,
                    spec_tbs_intermediate(pub_key@, issuer@, subject@, issue, expire),
                    CertSignAlgo::EcdsaSha384,
                    key_pair.spec_curve(),
                    key_pair.spec_public_key(),
                ),
                Err(e) => e == CertError::SigningFailed,
            },
        },
{
    let (issue, expire) = match valid_time_range(now, cert_valid_seconds) {
        Some(range) => range,
        None => return Err(CertError::InvalidTime),
    };
    let tbs = tbs_intermediate(pub_key, issuer, subject, &issue, &expire);
    match key_pair.sign(tbs.as_slice()) {
        Ok(signature) => {
            let der = certificate(tbs.as_slice(), CertSignAlgo::EcdsaSha384, signature.as_slice());
            assert(der@ == spec_certificate(tbs@, CertSignAlgo::EcdsaSha384, signature@));
            Ok(der)
        },
        Err(_) => Err(CertError::SigningFailed),
    }
}

/// The tags of the to-be-signed part: version, serial number, signature
/// algorithm, issuer, validity, subject, subject key and extensions.
pub open spec fn spec_tbs_tags() -> Seq<u8> {
    seq![
        TAG_VERSION,
        TAG_INTEGER,
        TAG_SEQUENCE,
        TAG_SEQUENCE,
        TAG_SEQUENCE,
        TAG_SEQUENCE,
        TAG_SEQUENCE,
        TAG_EXTENSIONS,
    ]
}

/// The contents of the eight parts of the to-be-signed part of `der`, when
/// `der` is exactly one certificate in this layout: a sequence of the
/// to-be-signed sequence, an algorithm sequence and a bit string.
pub open spec fn spec_tbs_fields(der: Seq<u8>) -> Option<Seq<Seq<u8>>> {
    match spec_read_elements(der, seq![TAG_SEQUENCE]) {
        Some(cert) => match spec_read_elements(
            cert[0],
            seq![TAG_SEQUENCE, TAG_SEQUENCE, TAG_BIT_STRING],
        ) {
            Some(parts) => spec_read_elements(parts[0], spec_tbs_tags()),
            None => None,
        },
        None => None,
    }
}

/// The common name that the content of a name holds: a set holding a
/// sequence of an object identifier and a UTF-8 string.
pub open spec fn spec_common_name(name: Seq<u8>) -> Option<Seq<u8>> {
    match spec_read_elements(name, seq![TAG_SET]) {
        Some(rdn) => match spec_read_elements(rdn[0], seq![TAG_SEQUENCE]) {
            Some(attribute) => match spec_read_elements(
                attribute[0],
                seq![TAG_OID, TAG_UTF8_STRING],
            ) {
                Some(f) => Some(f[1]),
                None => None,
            },
            None => None,
        },
        None => None,
    }
}

/// The issuer's and the subject's common names of a certificate, when it is
/// in this layout and both are valid UTF-8.
pub open spec fn spec_cert_info(der: Seq<u8>) -> Option<(Seq<char>, Seq<char>)> {
    match spec_tbs_fields(der) {
        Some(f) => match (spec_common_name(f[3]), spec_common_name(f[5])) {
            (Some(i), Some(s)) => if valid_utf8(i) && valid_utf8(s) {
                Some((decode_utf8(i), decode_utf8(s)))
            } else {
                None
            },
            _ => None,
        },
        None => None,
    }
}

/// The subject's public key of a certificate in this layout: the bytes of
/// the key's bit string, which has no unused bits.
pub open spec fn spec_cert_public_key(der: Seq<u8>) -> Option<Seq<u8>> {
    match spec_tbs_fields(der) {
        Some(f) => match spec_read_elements(f[6], seq![TAG_SEQUENCE, TAG_BIT_STRING]) {
            Some(k) => if k[1].len() > 0 && k[1][0] == 0 {
                Some(k[1].drop_first())
            } else {
                None
            },
            None => None,
        },
        None => None,
    }
}

/// The report that a certificate in this layout carries: the value of its
/// first extension, when that is an object identifier and an octet string.
pub open spec fn spec_cert_report(der: Seq<u8>) -> Option<Seq<u8>> {
    match spec_tbs_fields(der) {
        Some(f) => match spec_read_elements(f[7], seq![TAG_SEQUENCE]) {
            Some(list) => match spec_read_tlv(list[0]) {
                Some((t, ext, _)) => if t == TAG_SEQUENCE {
                    match spec_read_elements(ext, seq![TAG_OID, TAG_OCTET_STRING]) {
                        Some(e) => Some(e[1]),
                        None => None,
                    }
                } else {
                    None
                },
                None => None,
            },
            None => None,
        },
        None => None,
    }
}

/// The text that the bytes `bytes` spell in UTF-8, by `std::str::from_utf8`.
/// Claimed, as std documents it: `None` exactly when the bytes are not valid
/// UTF-8, and otherwise the characters they decode to.
#[verifier::external_body]
fn utf8_text(bytes: &[u8]) -> (text: Option<String>)
    ensures
        match text {
            Some(t) => valid_utf8(bytes@) && t@ == decode_utf8(bytes@),
            None => !valid_utf8(bytes@),
        },
{
    std::str::from_utf8(bytes).ok().map(|t| t.to_string())
}

/// The bounds in `der` of the contents of the eight parts of its
/// to-be-signed part; see `spec_tbs_fields`.
fn tbs_fields(der: &[u8]) -> (res: Option<Vec<(usize, usize)>>)
    ensures
        res is Some <==> spec_tbs_fields(der@) is Some,
        res matches Some(b) ==> {
            &&& b@.len() == 8
            &&& forall|j: int|
                0 <= j < b@.len() ==> (#[trigger] b@[j]).0 <= b@[j].1 <= der@.len()
            &&& spec_tbs_fields(der@) == Some(spec_contents(der@, b@))
        },
{
    assert(der@.subrange(0, der@.len() as int) =~= der@);
    let outer = vec![TAG_SEQUENCE];
    assert(outer@ =~= seq![TAG_SEQUENCE]);
    let cert = match read_elements(der, 0, der.len(), outer.as_slice()) {
        Some(b) => b,
        None => return None,
    };
    let (cs, ce) = cert[0];
    let parts_tags = vec![TAG_SEQUENCE, TAG_SEQUENCE, TAG_BIT_STRING];
    assert(parts_tags@ =~= seq![TAG_SEQUENCE, TAG_SEQUENCE, TAG_BIT_STRING]);
    let parts = match read_elements(der, cs, ce, parts_tags.as_slice()) {
        Some(b) => b,
        None => return None,
    };
    let (ts, te) = parts[0];
    let tbs_tags = vec![
        TAG_VERSION,
        TAG_INTEGER,
        TAG_SEQUENCE,
        TAG_SEQUENCE,
        TAG_SEQUENCE,
        TAG_SEQUENCE,
        TAG_SEQUENCE,
        TAG_EXTENSIONS,
    ];
    assert(tbs_tags@ =~= spec_tbs_tags());
    read_elements(der, ts, te, tbs_tags.as_slice())
}

/// The issuer's and subject's common names of the certificate `cert` (its
/// DER bytes); `None` when it is not in this layout or a name is not UTF-8.
pub fn extract_info_from_cert(cert: &[u8]) -> (info: Option<CertInfo>)
    ensures
        match spec_cert_info(cert@) {
            Some((issuer, subject)) => info matches Some(i) && i.issuer@ == issuer
                && i.subject@ == subject,
            None => info is None,
        },
{
    let f = match tbs_fields(cert) {
        Some(f) => f,
        None => return None,
    };
    let issuer = match common_name(cert, f[3].0, f[3].1) {
        Some(b) => b,
        None => return None,
    };
    let subject = match common_name(cert, f[5].0, f[5].1) {
        Some(b) => b,
        None => return None,
    };
    let issuer_text = match utf8_text(&cert[issuer.0..issuer.1]) {
        Some(t) => t,
        None => return None,
    };
    let subject_text = match utf8_text(&cert[subject.0..subject.1]) {
        Some(t) => t,
        None => return None,
    };
    Some(CertInfo { issuer: issuer_text, subject: subject_text })
}

/// The bounds in `der` of the common name that the name content
/// `der[start..end]` holds; see `spec_common_name`.
fn common_name(der: &[u8], start: usize, end: usize) -> (res: Option<(usize, usize)>)
    requires
        start <= end <= der@.len(),
    ensures
        res is Some <==> spec_common_name(der@.subrange(start as int, end as int)) is Some,
        res matches Some(b) ==> b.0 <= b.1 <= der@.len() && spec_common_name(
            der@.subrange(start as int, end as int),
        ) == Some(der@.subrange(b.0 as int, b.1 as int)),
{
    let set_tags = vec![TAG_SET];
    assert(set_tags@ =~= seq![TAG_SET]);
    let rdn = match read_elements(der, start, end, set_tags.as_slice()) {
        Some(b) => b,
        None => return None,
    };
    let seq_tags = vec![TAG_SEQUENCE];
    assert(seq_tags@ =~= seq![TAG_SEQUENCE]);
    let attribute = match read_elements(der, rdn[0].0, rdn[0].1, seq_tags.as_slice()) {
        Some(b) => b,
        None => return None,
    };
    let field_tags = vec![TAG_OID, TAG_UTF8_STRING];
    assert(field_tags@ =~= seq![TAG_OID, TAG_UTF8_STRING]);
    let fields = match read_elements(der, attribute[0].0, attribute[0].1, field_tags.as_slice()) {
        Some(b) => b,
        None => return None,
    };
    Some(fields[1])
}

/// The subject's public key of the certificate `cert` (its DER bytes);
/// `None` when it is not in this layout.
pub fn extract_pub_key_from_cert(cert: &[u8]) -> (key: Option<Vec<u8>>)
    ensures
        match spec_cert_public_key(cert@) {
            Some(k) => key matches Some(v) && v@ == k,
            None => key is None,
        },
{
    let f = match tbs_fields(cert) {
        Some(f) => f,
        None => return None,
    };
    let key_tags = vec![TAG_SEQUENCE, TAG_BIT_STRING];
    assert(key_tags@ =~= seq![TAG_SEQUENCE, TAG_BIT_STRING]);
    let parts = match read_elements(cert, f[6].0, f[6].1, key_tags.as_slice()) {
        Some(b) => b,
        None => return None,
    };
    let (bs, be) = parts[1];
    if bs == be || cert[bs] != 0 {
        return None;
    }
    let bits = &cert[bs + 1..be];
    assert(bits@ =~= cert@.subrange(bs as int, be as int).drop_first());
    Some(vstd::slice::slice_to_vec(bits))
}

/// The attestation report that the certificate `cert` (its DER bytes)
/// carries in its first extension; `None` when it is not in this layout or
/// carries none.
pub fn extract_report_payload_from_cert(cert: &[u8]) -> (payload: Option<Vec<u8>>)
    ensures
        match spec_cert_report(cert@) {
            Some(p) => payload matches Some(v) && v@ == p,
            None => payload is None,
        },
{
    let f = match tbs_fields(cert) {
        Some(f) => f,
        None => return None,
    };
    let list_tags = vec![TAG_SEQUENCE];
    assert(list_tags@ =~= seq![TAG_SEQUENCE]);
    let list = match read_elements(cert, f[7].0, f[7].1, list_tags.as_slice()) {
        Some(b) => b,
        None => return None,
    };
    let (tag, es, ee) = match read_tlv(cert, list[0].0, list[0].1) {
        Some(t) => t,
        None => return None,
    };
    if tag != TAG_SEQUENCE {
        return None;
    }
    let ext_tags = vec![TAG_OID, TAG_OCTET_STRING];
    assert(ext_tags@ =~= seq![TAG_OID, TAG_OCTET_STRING]);
    let ext = match read_elements(cert, es, ee, ext_tags.as_slice()) {
        Some(b) => b,
        None => return None,
    };
    Some(vstd::slice::slice_to_vec(&cert[ext[1].0..ext[1].1]))
}

proof fn lemma_read_run(tags: Seq<u8>, contents: Seq<Seq<u8>>)
    requires
        tags.len() == contents.len(),
        forall|i: int| 0 <= i < tags.len() ==> spec_short_tag(#[trigger] tags[i]),
        spec_elements(tags, contents).len() <= usize::MAX,
    ensures
        spec_read_elements(spec_elements(tags, contents), tags) == Some(contents),
{
    lemma_elements_len(tags, contents);
    lemma_read_elements(tags, contents);
}

proof fn lemma_single(tag: u8, content: Seq<u8>)
    ensures
        spec_elements(seq![tag], seq![content]) == spec_tlv(tag, content),
{
    lemma_elements_cons(tag, content, Seq::empty(), Seq::empty());
    assert(seq![tag] + Seq::<u8>::empty() =~= seq![tag]);
    assert(seq![content] + Seq::<Seq<u8>>::empty() =~= seq![content]);
    assert(spec_tlv(tag, content) + Seq::<u8>::empty() =~= spec_tlv(tag, content));
}

proof fn lemma_pair(t0: u8, c0: Seq<u8>, t1: u8, c1: Seq<u8>)
    ensures
        spec_elements(seq![t0, t1], seq![c0, c1]) == spec_tlv(t0, c0) + spec_tlv(t1, c1),
{
    lemma_single(t1, c1);
    lemma_elements_cons(t0, c0, seq![t1], seq![c1]);
    assert(seq![t0] + seq![t1] =~= seq![t0, t1]);
    assert(seq![c0] + seq![c1] =~= seq![c0, c1]);
}

/// The to-be-signed part of a certificate of this layout reads back as its
/// eight parts.
proof fn lemma_tbs_fields(
    algo: CertSignAlgo,
    issuer: Seq<u8>,
    subject: Seq<u8>,
    issue: DateTime,
    expire: DateTime,
    key: Seq<u8>,
    extensions: Seq<u8>,
    signature: Seq<u8>,
)
    requires
        spec_certificate(
            spec_tbs(algo, issuer, subject, issue, expire, key, extensions),
            algo,
            signature,
        ).len() <= usize::MAX,
    ensures
        spec_tbs_fields(
            spec_certificate(
                spec_tbs(algo, issuer, subject, issue, expire, key, extensions),
                algo,
                signature,
            ),
        ) == Some(spec_tbs_contents(algo, issuer, subject, issue, expire, key, extensions)),
{
    let contents = spec_tbs_contents(algo, issuer, subject, issue, expire, key, extensions);
    let tbsc = spec_elements(spec_tbs_tags(), contents);
    let tbs = spec_tlv(TAG_SEQUENCE, tbsc);
    let alg = spec_tlv(TAG_OID, spec_algo_oid(algo));
    let bits = seq![0u8] + signature;
    let tail = spec_elements(seq![TAG_SEQUENCE, TAG_BIT_STRING], seq![alg, bits]);
    let certc = tbs + tail;
    lemma_single(TAG_SEQUENCE, certc);
    lemma_read_run(seq![TAG_SEQUENCE], seq![certc]);
    lemma_elements_cons(TAG_SEQUENCE, tbsc, seq![TAG_SEQUENCE, TAG_BIT_STRING], seq![alg, bits]);
    assert(seq![TAG_SEQUENCE] + seq![TAG_SEQUENCE, TAG_BIT_STRING] =~= seq![
        TAG_SEQUENCE,
        TAG_SEQUENCE,
        TAG_BIT_STRING,
    ]);
    assert(seq![tbsc] + seq![alg, bits] =~= seq![tbsc, alg, bits]);
    let short_tags = seq![TAG_SEQUENCE, TAG_SEQUENCE, TAG_BIT_STRING];
    assert forall|i: int| 0 <= i < 3 implies spec_short_tag(#[trigger] short_tags[i]) by {}
    lemma_read_run(seq![TAG_SEQUENCE, TAG_SEQUENCE, TAG_BIT_STRING], seq![tbsc, alg, bits]);
    assert forall|i: int| 0 <= i < 8 implies spec_short_tag(#[trigger] spec_tbs_tags()[i]) by {}
    lemma_read_run(spec_tbs_tags(), contents);
}

/// The content of a name reads back as its common name.
proof fn lemma_common_name(cn: Seq<u8>)
    requires
        spec_name(cn).len() <= usize::MAX,
    ensures
        spec_common_name(spec_name(cn)) == Some(cn),
{
    let attribute = spec_elements(seq![TAG_OID, TAG_UTF8_STRING], seq![spec_oid_common_name(), cn]);
    let rdn = spec_tlv(TAG_SEQUENCE, attribute);
    lemma_single(TAG_SET, rdn);
    lemma_read_run(seq![TAG_SET], seq![rdn]);
    lemma_single(TAG_SEQUENCE, attribute);
    lemma_read_run(seq![TAG_SEQUENCE], seq![attribute]);
    let short_tags = seq![TAG_OID, TAG_UTF8_STRING];
    assert forall|i: int| 0 <= i < 2 implies spec_short_tag(#[trigger] short_tags[i]) by {}
    lemma_read_run(seq![TAG_OID, TAG_UTF8_STRING], seq![spec_oid_common_name(), cn]);
}

/// The subject key info reads back as its key.
proof fn lemma_public_key(key: Seq<u8>)
    requires
        spec_public_key_info(key).len() <= usize::MAX,
    ensures
        match spec_read_elements(spec_public_key_info(key), seq![TAG_SEQUENCE, TAG_BIT_STRING]) {
            Some(k) => k[1].len() > 0 && k[1][0] == 0 && k[1].drop_first() == key,
            None => false,
        },
{
    let alg = spec_elements(
        seq![TAG_OID, TAG_OID],
        seq![spec_oid_ec_public_key(), spec_oid_prime256v1()],
    );
    let short_tags = seq![TAG_SEQUENCE, TAG_BIT_STRING];
    assert forall|i: int| 0 <= i < 2 implies spec_short_tag(#[trigger] short_tags[i]) by {}
    lemma_read_run(seq![TAG_SEQUENCE, TAG_BIT_STRING], seq![alg, seq![0u8] + key]);
    assert((seq![0u8] + key).drop_first() =~= key);
}

/// A name reads back as the text it was made with.
proof fn lemma_name_text(text: Seq<char>)
    ensures
        valid_utf8(encode_utf8(text)),
        decode_utf8(encode_utf8(text)) == text,
{
    vstd::utf8::encode_utf8_valid_utf8(text);
    vstd::utf8::encode_utf8_decode_utf8(text);
}

/// An end certificate reads back as it was made, whatever its signature:
/// its issuer and subject, its subject's public key and its attestation
/// report are those it was made with.
pub proof fn lemma_end_certificate_read_back(
    key: Seq<u8>,
    issuer: Seq<char>,
    subject: Seq<char>,
    dns0: Seq<char>,
    dns1: Seq<char>,
    payload: Seq<u8>,
    issue: DateTime,
    expire: DateTime,
    signature: Seq<u8>,
)
    requires
        spec_certificate(
            spec_tbs_with_extension(key, issuer, subject, dns0, dns1, payload, issue, expire),
            CertSignAlgo::EcdsaSha256,
            signature,
        ).len() <= usize::MAX,
    ensures
        spec_cert_info(
            spec_certificate(
                spec_tbs_with_extension(key, issuer, subject, dns0, dns1, payload, issue, expire),
                CertSignAlgo::EcdsaSha256,
                signature,
            ),
        ) == Some((issuer, subject)),
        spec_cert_public_key(
            spec_certificate(
                spec_tbs_with_extension(key, issuer, subject, dns0, dns1, payload, issue, expire),
                CertSignAlgo::EcdsaSha256,
                signature,
            ),
        ) == Some(key),
        spec_cert_report(
            spec_certificate(
                spec_tbs_with_extension(key, issuer, subject, dns0, dns1, payload, issue, expire),
                CertSignAlgo::EcdsaSha256,
                signature,
            ),
        ) == Some(payload),
{
    let algo = CertSignAlgo::EcdsaSha256;
    let i = encode_utf8(issuer);
    let s = encode_utf8(subject);
    let first = spec_elements(seq![TAG_OID, TAG_OCTET_STRING], seq![spec_oid_comment(), payload]);
    let second = spec_extension(
        spec_oid_subject_alt_name(),
        spec_dns_names(encode_utf8(dns0), encode_utf8(dns1)),
    );
    let extensions = spec_tlv(TAG_SEQUENCE, first) + second;
    lemma_tbs_fields(algo, i, s, issue, expire, key, extensions, signature);
    let contents = spec_tbs_contents(algo, i, s, issue, expire, key, extensions);
    lemma_elements_len(spec_tbs_tags(), contents);
    lemma_common_name(i);
    lemma_common_name(s);
    lemma_name_text(issuer);
    lemma_name_text(subject);
    lemma_public_key(key);
    lemma_single(TAG_SEQUENCE, extensions);
    lemma_read_run(seq![TAG_SEQUENCE], seq![extensions]);
    lemma_elements_len(seq![TAG_OID, TAG_OCTET_STRING], seq![spec_oid_comment(), payload]);
    lemma_read_tlv(TAG_SEQUENCE, first, second);
    let short_tags = seq![TAG_OID, TAG_OCTET_STRING];
    assert forall|k: int| 0 <= k < 2 implies spec_short_tag(#[trigger] short_tags[k]) by {}
    lemma_read_run(seq![TAG_OID, TAG_OCTET_STRING], seq![spec_oid_comment(), payload]);
}

/// The basic-constraints extension is no report: its second part is a
/// boolean, not an octet string.
proof fn lemma_ca_extension_no_report()
    ensures
        match spec_read_tlv(spec_ca_extension()) {
            Some((t, e, _)) => t == TAG_SEQUENCE && spec_read_elements(
                e,
                seq![TAG_OID, TAG_OCTET_STRING],
            ) is None,
            None => false,
        },
{
    let tags = seq![TAG_OID, TAG_BOOLEAN, TAG_OCTET_STRING];
    let values = seq![spec_oid_basic_constraints(), seq![0xffu8], spec_ca_constraints()];
    let first = spec_tlv(TAG_OID, spec_oid_basic_constraints());
    let flag = spec_tlv(TAG_BOOLEAN, seq![0xffu8]);
    let last = spec_tlv(TAG_OCTET_STRING, spec_ca_constraints());
    lemma_elements_cons(
        TAG_OID,
        spec_oid_basic_constraints(),
        seq![TAG_BOOLEAN, TAG_OCTET_STRING],
        seq![seq![0xffu8], spec_ca_constraints()],
    );
    lemma_pair(TAG_BOOLEAN, seq![0xffu8], TAG_OCTET_STRING, spec_ca_constraints());
    assert(seq![TAG_OID] + seq![TAG_BOOLEAN, TAG_OCTET_STRING] =~= tags);
    assert(seq![spec_oid_basic_constraints()] + seq![seq![0xffu8], spec_ca_constraints()] =~= values);
    let run = spec_elements(tags, values);
    assert(run == first + (flag + last));
    assert(first.len() == 5 && flag.len() == 3 && last.len() == 7);
    lemma_read_tlv(TAG_SEQUENCE, run, Seq::empty());
    assert(spec_ca_extension() + Seq::<u8>::empty() =~= spec_ca_extension());
    lemma_read_tlv(TAG_OID, spec_oid_basic_constraints(), flag + last);
    lemma_read_tlv(TAG_BOOLEAN, seq![0xffu8], last);
    assert(spec_read_tlv(run) == Some((TAG_OID, spec_oid_basic_constraints(), flag + last)));
    assert(spec_read_tlv(flag + last) == Some((TAG_BOOLEAN, seq![0xffu8], last)));
    assert(spec_read_elements(flag + last, seq![TAG_OCTET_STRING]) is None);
    assert(seq![TAG_OID, TAG_OCTET_STRING][0] == TAG_OID);
    assert(seq![TAG_OID, TAG_OCTET_STRING].drop_first() =~= seq![TAG_OCTET_STRING]);
    assert(spec_read_elements(run, seq![TAG_OID, TAG_OCTET_STRING]) is None);
    assert(spec_read_tlv(spec_ca_extension()) == Some((TAG_SEQUENCE, run, Seq::<u8>::empty())));
}

/// An intermediate certificate reads back as it was made, whatever its
/// signature: its issuer and subject and its subject's public key are those
/// it was made with, and it carries no attestation report.
pub proof fn lemma_intermediate_certificate_read_back(
    key: Seq<u8>,
    issuer: Seq<char>,
    subject: Seq<char>,
    issue: DateTime,
    expire: DateTime,
    signature: Seq<u8>,
)
    requires
        spec_certificate(
            spec_tbs_intermediate(key, issuer, subject, issue, expire),
            CertSignAlgo::EcdsaSha384,
            signature,
        ).len() <= usize::MAX,
    ensures
        spec_cert_info(
            spec_certificate(
                spec_tbs_intermediate(key, issuer, subject, issue, expire),
                CertSignAlgo::EcdsaSha384,
                signature,
            ),
        ) == Some((issuer, subject)),
        spec_cert_public_key(
            spec_certificate(
                spec_tbs_intermediate(key, issuer, subject, issue, expire),
                CertSignAlgo::EcdsaSha384,
                signature,
            ),
        ) == Some(key),
        spec_cert_report(
            spec_certificate(
                spec_tbs_intermediate(key, issuer, subject, issue, expire),
                CertSignAlgo::EcdsaSha384,
                signature,
            ),
        ) is None,
{
    let algo = CertSignAlgo::EcdsaSha384;
    let i = encode_utf8(issuer);
    let s = encode_utf8(subject);
    lemma_tbs_fields(algo, i, s, issue, expire, key, spec_ca_extension(), signature);
    let contents = spec_tbs_contents(algo, i, s, issue, expire, key, spec_ca_extension());
    lemma_elements_len(spec_tbs_tags(), contents);
    lemma_common_name(i);
    lemma_common_name(s);
    lemma_name_text(issuer);
    lemma_name_text(subject);
    lemma_public_key(key);
    let ext = spec_ca_extension();
    lemma_single(TAG_SEQUENCE, ext);
    lemma_read_run(seq![TAG_SEQUENCE], seq![ext]);
    lemma_ca_extension_no_report();
}

} // verus!
