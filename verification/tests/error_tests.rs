use optee_core::error::{Error, ErrorKind, ErrorOrigin};
use optee_core::raw;

/// Guarantees: unrecognized codes are preserved in the catch-all variant
/// and round-trip through `Error`.
#[test]
fn unknown_raw_code_round_trips() {
    let code = 0x1234_5678;
    assert_eq!(ErrorKind::from(code), ErrorKind::Unknown(code));
    let back: u32 = ErrorKind::Unknown(code).into();
    assert_eq!(back, code);

    let err = Error::from_raw_error(code);
    assert_eq!(err.kind(), ErrorKind::Unknown(code));
    assert_eq!(err.raw_code(), code);
}

/// Guarantees: known codes still map to their named variants.
#[test]
fn known_codes_still_map() {
    assert_eq!(
        ErrorKind::from(raw::TEE_ERROR_SECURITY),
        ErrorKind::Security
    );
    let code: u32 = ErrorKind::Security.into();
    assert_eq!(code, raw::TEE_ERROR_SECURITY);
}

#[test]
fn every_named_kind_round_trips_through_its_code() {
    let codes: [u32; 4] = [
        raw::TEE_ERROR_SECURITY,
        raw::TEE_ERROR_SHORT_BUFFER,
        raw::TEE_ERROR_BAD_PARAMETERS,
        raw::TEE_ERROR_GENERIC,
    ];
    for code in codes {
        let kind = ErrorKind::from(code);
        assert!(!matches!(kind, ErrorKind::Unknown(_)));
        let back: u32 = kind.into();
        assert_eq!(back, code);
    }
}

#[test]
fn error_messages_and_origin() {
    assert_eq!(
        ErrorKind::ShortBuffer.as_str(),
        "The supplied buffer is too short for the generated output."
    );
    let err = Error::new(ErrorKind::BadParameters);
    assert_eq!(err.kind(), ErrorKind::BadParameters);
    assert_eq!(err.origin(), None);
    assert_eq!(err.raw_code(), raw::TEE_ERROR_BAD_PARAMETERS);
    let err = err.with_origin(ErrorOrigin::Tee);
    assert_eq!(err.origin(), Some(ErrorOrigin::Tee));
    let from_kind: Error = ErrorKind::Overflow.into();
    assert_eq!(from_kind.kind(), ErrorKind::Overflow);
}

#[test]
fn origin_codes_round_trip() {
    let tee: u32 = ErrorOrigin::Tee.into();
    assert_eq!(ErrorOrigin::from(tee), ErrorOrigin::Tee);
    assert_eq!(ErrorOrigin::from(0xdead_beef), ErrorOrigin::Unknown);
}
