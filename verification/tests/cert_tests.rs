use optee_core::cert::{
    extract_info_from_cert, extract_pub_key_from_cert, extract_report_payload_from_cert,
    sign_csr_with_extension, sign_intermediate, tbs_certificate_with_extension, tbs_intermediate,
    valid_time_range, CertError,
};
use optee_core::ecdsa::{verify_signature_p256, EcdsaKeyPair};

fn from_hex(text: &str) -> Vec<u8> {
    (0..text.len())
        .step_by(2)
        .map(|i| u8::from_str_radix(&text[i..i + 2], 16).unwrap())
        .collect()
}

fn sample_key() -> Vec<u8> {
    let mut key = vec![4u8];
    key.extend_from_slice(&[1u8; 64]);
    key
}

fn sample_payload() -> Vec<u8> {
    let zeros = vec!["0"; 32].join(",");
    format!("{{\"measurement\":[{}]}}", zeros).into_bytes()
}

const NOW: i64 = 1_700_000_000;

#[test]
fn valid_time_range_starts_ten_seconds_early() {
    let (issue, expire) = valid_time_range(NOW, 3600).unwrap();
    assert_eq!(issue.to_string(), "231114221310Z");
    assert_eq!(expire.to_string(), "231114231310Z");
}

#[test]
fn valid_time_range_refuses_what_has_no_utc_time() {
    assert!(valid_time_range(5, 3600).is_none());
    assert!(valid_time_range(100, -1000).is_none());
    assert!(valid_time_range(i64::MAX, i64::MAX).is_none());
    assert!(valid_time_range(10, 0).is_some());
}

#[test]
fn intermediate_tbs_layout() {
    let (issue, expire) = valid_time_range(NOW, 3600).unwrap();
    let tbs = tbs_intermediate(
        &sample_key(),
        "CK ECDSA CA",
        "CK ECDSA level 2 intermediate",
        &issue,
        &expire,
    );
    assert_eq!(tbs, from_hex("3081e6a003020102020101300a06082a8648ce3d04030330163114301206035504030c0b434b204543445341204341301e170d3233313131343232313331305a170d3233313131343233313331305a30283126302406035504030c1d434b204543445341206c6576656c203220696e7465726d6564696174653059301306072a8648ce3d020106082a8648ce3d0301070342000401010101010101010101010101010101010101010101010101010101010101010101010101010101010101010101010101010101010101010101010101010101a3133011300f0603551d130101ff040530030101ff"));
}

#[test]
fn end_tbs_layout_with_long_lengths() {
    let (issue, expire) = valid_time_range(NOW, 3600).unwrap();
    let payload = sample_payload();
    assert_eq!(payload.len(), 81);
    let tbs = tbs_certificate_with_extension(
        &sample_key(),
        "CK ECDSA CA",
        "CK client: alice",
        ["client", "localhost"],
        &payload,
        &issue,
        &expire,
    );
    assert_eq!(tbs.len(), 331);
    assert_eq!(tbs, from_hex("30820147a003020102020101300a06082a8648ce3d04030230163114301206035504030c0b434b204543445341204341301e170d3233313131343232313331305a170d3233313131343233313331305a301b3119301706035504030c10434b20636c69656e743a20616c6963653059301306072a8648ce3d020106082a8648ce3d0301070342000401010101010101010101010101010101010101010101010101010101010101010101010101010101010101010101010101010101010101010101010101010101a38180307e305e06096086480186f842010d04517b226d6561737572656d656e74223a5b302c302c302c302c302c302c302c302c302c302c302c302c302c302c302c302c302c302c302c302c302c302c302c302c302c302c302c302c302c302c302c305d7d301c0603551d11041530138206636c69656e7482096c6f63616c686f7374"));
}

#[test]
fn end_certificate_reads_back() {
    let ca = EcdsaKeyPair::new().unwrap();
    let payload = sample_payload();
    let der = sign_csr_with_extension(
        &ca,
        &sample_key(),
        "CK ECDSA CA",
        "CK client: alice",
        ["client", "localhost"],
        &payload,
        3600,
        NOW,
    )
    .unwrap();
    let info = extract_info_from_cert(&der).unwrap();
    assert_eq!(info.issuer, "CK ECDSA CA");
    assert_eq!(info.subject, "CK client: alice");
    assert_eq!(extract_pub_key_from_cert(&der).unwrap(), sample_key());
    assert_eq!(extract_report_payload_from_cert(&der).unwrap(), payload);
}

#[test]
fn end_certificate_signature_verifies() {
    let ca = EcdsaKeyPair::new().unwrap();
    let payload = sample_payload();
    let der = sign_csr_with_extension(
        &ca,
        &sample_key(),
        "CK ECDSA CA",
        "CK client: alice",
        ["client", "localhost"],
        &payload,
        3600,
        NOW,
    )
    .unwrap();
    let (issue, expire) = valid_time_range(NOW, 3600).unwrap();
    let tbs = tbs_certificate_with_extension(
        &sample_key(),
        "CK ECDSA CA",
        "CK client: alice",
        ["client", "localhost"],
        &payload,
        &issue,
        &expire,
    );
    // 0x30 0x82 and two length bytes, then the to-be-signed part.
    assert_eq!(&der[4..4 + tbs.len()], tbs.as_slice());
    let algorithm = from_hex("300a06082a8648ce3d040302");
    let after = 4 + tbs.len();
    assert_eq!(&der[after..after + algorithm.len()], algorithm.as_slice());
    let bits = after + algorithm.len();
    assert_eq!(der[bits], 0x03);
    assert_eq!(der[bits + 2], 0x00);
    let signature = &der[bits + 3..];
    assert_eq!(der[bits + 1] as usize, signature.len() + 1);
    assert!(verify_signature_p256(ca.pub_key(), &tbs, signature).is_ok());
}

#[test]
fn intermediate_certificate_reads_back() {
    let ca = EcdsaKeyPair::new().unwrap();
    let der = sign_intermediate(
        &ca,
        &sample_key(),
        "CK ECDSA CA",
        "CK ECDSA level 2 intermediate",
        3600,
        NOW,
    )
    .unwrap();
    let info = extract_info_from_cert(&der).unwrap();
    assert_eq!(info.issuer, "CK ECDSA CA");
    assert_eq!(info.subject, "CK ECDSA level 2 intermediate");
    assert_eq!(extract_pub_key_from_cert(&der).unwrap(), sample_key());
    assert!(extract_report_payload_from_cert(&der).is_none());
}

#[test]
fn certificate_with_invalid_time_is_refused() {
    let ca = EcdsaKeyPair::new().unwrap();
    let res = sign_csr_with_extension(
        &ca,
        &sample_key(),
        "CK ECDSA CA",
        "CK client: alice",
        ["client", "localhost"],
        b"{}",
        3600,
        3,
    );
    assert_eq!(res, Err(CertError::InvalidTime));
    let res = sign_intermediate(&ca, &sample_key(), "a", "b", i64::MAX, NOW);
    assert_eq!(res, Err(CertError::InvalidTime));
}

#[test]
fn malformed_certificates_read_as_none() {
    let ca = EcdsaKeyPair::new().unwrap();
    let der = sign_intermediate(&ca, &sample_key(), "CK ECDSA CA", "CK", 3600, NOW).unwrap();
    let mut longer = der.clone();
    longer.push(0);
    for bad in [&b""[..], &b"\x30\x00"[..], &der[..der.len() - 1], &longer[..]] {
        assert!(extract_info_from_cert(bad).is_none());
        assert!(extract_pub_key_from_cert(bad).is_none());
        assert!(extract_report_payload_from_cert(bad).is_none());
    }
}
