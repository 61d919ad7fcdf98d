use optee_core::date::{Date, DateTime};
use optee_core::digits::{decimal_string, format_int, hex_string};
use optee_core::error::{Error, ErrorKind, ErrorOrigin};
use optee_core::storage::storage_file_name;
use optee_core::text::{split_on, starts_with, trim, trim_by, TrimKind};

#[test]
fn trimming_and_splitting() {
    assert_eq!(trim("  a b \n"), "a b");
    assert_eq!(trim("\u{3000}x\u{a0}"), "x");
    assert_eq!(trim(""), "");
    assert_eq!(trim_by("\"q\"\"", TrimKind::Quote), "q");
    assert_eq!(split_on("a,,b", ','), vec!["a", "", "b"]);
    assert_eq!(split_on("", ','), vec![""]);
    assert!(starts_with("name = x", "name"));
    assert!(!starts_with("na", "name"));
}

#[test]
fn numbers_render_like_format() {
    for n in [0u64, 7, 10, 99, 12345, u64::MAX] {
        assert_eq!(decimal_string(n), format!("{}", n));
        assert_eq!(hex_string(n), format!("{:x}", n));
    }
    for n in [-123i32, -5, 0, 5, 42, 2024, i32::MIN, i32::MAX] {
        assert_eq!(format_int(n, 2), format!("{:02}", n));
        assert_eq!(format_int(n, 4), format!("{:04}", n));
    }
}

#[test]
fn dates_render_as_text() {
    let dt = DateTime::from_timestamp(1262391174);
    assert_eq!(dt.to_string(), "100102001254Z");
    assert_eq!(dt.date().to_string(), "2010-01-02 UTC");
    assert_eq!(Date::from_ymd(7, 3, 4).to_string(), "0007-03-04 UTC");
    assert_eq!(DateTime::new().to_string(), "000000000000Z");
}

#[test]
fn errors_render_with_codes() {
    let err = Error::new(ErrorKind::ShortBuffer).with_origin(ErrorOrigin::Tee);
    assert_eq!(
        err.to_string(),
        "The supplied buffer is too short for the generated output. (error code 0xffff0010, origin 0x3)"
    );
    let err = Error::from_raw_error(0x1234);
    assert!(err.to_string().ends_with("(error code 0x1234, origin 0x0)"));
}

#[test]
fn storage_file_names_are_lower_case_hex() {
    assert_eq!(storage_file_name(b"keystore-backup"), "6b657973746f72652d6261636b7570");
    assert_eq!(storage_file_name(&[0x00, 0x0f, 0xab, 0xff]), "000fabff");
    assert_eq!(storage_file_name(&[]), "");
    let usage: String = optee_core::tee_key::TeeKeyUsage::Signing.into();
    assert_eq!(usage, "keystore-signing");
}
