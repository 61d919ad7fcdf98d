//! Errors of TEE operations and the raw result codes they carry.
use vstd::prelude::*;

use crate::digits::{append_hex, spec_hex};
use crate::raw;

verus! {

/// A specialized `Result` type for TEE operations.
pub type Result<T> = core::result::Result<T, Error>;

/// A list specifying general categories of TEE error and its corresponding
/// code in OP-TEE OS.
///
/// Unrecognized codes are preserved in the `Unknown` catch-all variant, so
/// `raw_code()` always round-trips the value passed to
/// [`Error::from_raw_error`].
#[derive(Clone, Copy, Debug, PartialEq, Eq, Structural, Hash, PartialOrd, Ord)]
pub enum ErrorKind {
    /// Object corruption.
    CorruptObject,
    /// Persistent object corruption.
    CorruptObject2,
    /// Object storage is not available.
    StorageNotAvailable,
    /// Persistent object storage is not available.
    StorageNotAvailable2,
    /// Non-specific cause.
    Generic,
    /// Access privileges are not sufficient.
    AccessDenied,
    /// The operation was canceled.
    Cancel,
    /// Concurrent accesses caused conflict.
    AccessConflict,
    /// Too much data for the requested operation was passed.
    ExcessData,
    /// Input data was of invalid format.
    BadFormat,
    /// Input parameters were invalid.
    BadParameters,
    /// Operation is not valid in the current state.
    BadState,
    /// The requested data item is not found.
    ItemNotFound,
    /// The requested operation should exist but is not yet implemented.
    NotImplemented,
    /// The requested operation is valid but is not supported in this implementation.
    NotSupported,
    /// Expected data was missing.
    NoData,
    /// System ran out of resources.
    OutOfMemory,
    /// The system is busy working on something else.
    Busy,
    /// Communication with a remote party failed.
    Communication,
    /// A security fault was detected.
    Security,
    /// The supplied buffer is too short for the generated output.
    ShortBuffer,
    /// Undocumented.
    ExternalCancel,
    /// Data overflow.
    Overflow,
    /// Trusted Application has panicked during the operation.
    TargetDead,
    /// Insufficient space is available.
    StorageNoSpace,
    /// MAC is invalid.
    MacInvalid,
    /// Signature is invalid.
    SignatureInvalid,
    /// The persistent time has not been set.
    TimeNotSet,
    /// The persistent time has been set but may have been corrupted and SHALL no longer be trusted.
    TimeNeedsReset,
    /// Unknown error, holding the raw code as received.
    Unknown(u32),
}

/// The raw code of an error kind: the named kinds have their OP-TEE code, and
/// `Unknown` carries its own.
pub open spec fn spec_kind_code(kind: ErrorKind) -> u32 {
    match kind {
        ErrorKind::CorruptObject => raw::TEE_ERROR_CORRUPT_OBJECT,
        ErrorKind::CorruptObject2 => raw::TEE_ERROR_CORRUPT_OBJECT_2,
        ErrorKind::StorageNotAvailable => raw::TEE_ERROR_STORAGE_NOT_AVAILABLE,
        ErrorKind::StorageNotAvailable2 => raw::TEE_ERROR_STORAGE_NOT_AVAILABLE_2,
        ErrorKind::Generic => raw::TEE_ERROR_GENERIC,
        ErrorKind::AccessDenied => raw::TEE_ERROR_ACCESS_DENIED,
        ErrorKind::Cancel => raw::TEE_ERROR_CANCEL,
        ErrorKind::AccessConflict => raw::TEE_ERROR_ACCESS_CONFLICT,
        ErrorKind::ExcessData => raw::TEE_ERROR_EXCESS_DATA,
        ErrorKind::BadFormat => raw::TEE_ERROR_BAD_FORMAT,
        ErrorKind::BadParameters => raw::TEE_ERROR_BAD_PARAMETERS,
        ErrorKind::BadState => raw::TEE_ERROR_BAD_STATE,
        ErrorKind::ItemNotFound => raw::TEE_ERROR_ITEM_NOT_FOUND,
        ErrorKind::NotImplemented => raw::TEE_ERROR_NOT_IMPLEMENTED,
        ErrorKind::NotSupported => raw::TEE_ERROR_NOT_SUPPORTED,
        ErrorKind::NoData => raw::TEE_ERROR_NO_DATA,
        ErrorKind::OutOfMemory => raw::TEE_ERROR_OUT_OF_MEMORY,
        ErrorKind::Busy => raw::TEE_ERROR_BUSY,
        ErrorKind::Communication => raw::TEE_ERROR_COMMUNICATION,
        ErrorKind::Security => raw::TEE_ERROR_SECURITY,
        ErrorKind::ShortBuffer => raw::TEE_ERROR_SHORT_BUFFER,
        ErrorKind::ExternalCancel => raw::TEE_ERROR_EXTERNAL_CANCEL,
        ErrorKind::Overflow => raw::TEE_ERROR_OVERFLOW,
        ErrorKind::TargetDead => raw::TEE_ERROR_TARGET_DEAD,
        ErrorKind::StorageNoSpace => raw::TEE_ERROR_STORAGE_NO_SPACE,
        ErrorKind::MacInvalid => raw::TEE_ERROR_MAC_INVALID,
        ErrorKind::SignatureInvalid => raw::TEE_ERROR_SIGNATURE_INVALID,
        ErrorKind::TimeNotSet => raw::TEE_ERROR_TIME_NOT_SET,
        ErrorKind::TimeNeedsReset => raw::TEE_ERROR_TIME_NEEDS_RESET,
        ErrorKind::Unknown(code) => code,
    }
}

/// Whether `code` is the OP-TEE code of one of the named error kinds.
pub open spec fn is_known_code(code: u32) -> bool {
    code == raw::TEE_ERROR_CORRUPT_OBJECT
        || code == raw::TEE_ERROR_CORRUPT_OBJECT_2
        || code == raw::TEE_ERROR_STORAGE_NOT_AVAILABLE
        || code == raw::TEE_ERROR_STORAGE_NOT_AVAILABLE_2
        || code == raw::TEE_ERROR_GENERIC
        || code == raw::TEE_ERROR_ACCESS_DENIED
        || code == raw::TEE_ERROR_CANCEL
        || code == raw::TEE_ERROR_ACCESS_CONFLICT
        || code == raw::TEE_ERROR_EXCESS_DATA
        || code == raw::TEE_ERROR_BAD_FORMAT
        || code == raw::TEE_ERROR_BAD_PARAMETERS
        || code == raw::TEE_ERROR_BAD_STATE
        || code == raw::TEE_ERROR_ITEM_NOT_FOUND
        || code == raw::TEE_ERROR_NOT_IMPLEMENTED
        || code == raw::TEE_ERROR_NOT_SUPPORTED
        || code == raw::TEE_ERROR_NO_DATA
        || code == raw::TEE_ERROR_OUT_OF_MEMORY
        || code == raw::TEE_ERROR_BUSY
        || code == raw::TEE_ERROR_COMMUNICATION
        || code == raw::TEE_ERROR_SECURITY
        || code == raw::TEE_ERROR_SHORT_BUFFER
        || code == raw::TEE_ERROR_EXTERNAL_CANCEL
        || code == raw::TEE_ERROR_OVERFLOW
        || code == raw::TEE_ERROR_TARGET_DEAD
        || code == raw::TEE_ERROR_STORAGE_NO_SPACE
        || code == raw::TEE_ERROR_MAC_INVALID
        || code == raw::TEE_ERROR_SIGNATURE_INVALID
        || code == raw::TEE_ERROR_TIME_NOT_SET
        || code == raw::TEE_ERROR_TIME_NEEDS_RESET
}

/// The error kind that a raw code stands for: the named kind whose code it is,
/// and `Unknown` holding the code for every other value.
pub open spec fn spec_kind_of_code(code: u32) -> ErrorKind {
    if code == raw::TEE_ERROR_CORRUPT_OBJECT {
        ErrorKind::CorruptObject
    } else if code == raw::TEE_ERROR_CORRUPT_OBJECT_2 {
        ErrorKind::CorruptObject2
    } else if code == raw::TEE_ERROR_STORAGE_NOT_AVAILABLE {
        ErrorKind::StorageNotAvailable
    } else if code == raw::TEE_ERROR_STORAGE_NOT_AVAILABLE_2 {
        ErrorKind::StorageNotAvailable2
    } else if code == raw::TEE_ERROR_GENERIC {
        ErrorKind::Generic
    } else if code == raw::TEE_ERROR_ACCESS_DENIED {
        ErrorKind::AccessDenied
    } else if code == raw::TEE_ERROR_CANCEL {
        ErrorKind::Cancel
    } else if code == raw::TEE_ERROR_ACCESS_CONFLICT {
        ErrorKind::AccessConflict
    } else if code == raw::TEE_ERROR_EXCESS_DATA {
        ErrorKind::ExcessData
    } else if code == raw::TEE_ERROR_BAD_FORMAT {
        ErrorKind::BadFormat
    } else if code == raw::TEE_ERROR_BAD_PARAMETERS {
        ErrorKind::BadParameters
    } else if code == raw::TEE_ERROR_BAD_STATE {
        ErrorKind::BadState
    } else if code == raw::TEE_ERROR_ITEM_NOT_FOUND {
        ErrorKind::ItemNotFound
    } else if code == raw::TEE_ERROR_NOT_IMPLEMENTED {
        ErrorKind::NotImplemented
    } else if code == raw::TEE_ERROR_NOT_SUPPORTED {
        ErrorKind::NotSupported
    } else if code == raw::TEE_ERROR_NO_DATA {
        ErrorKind::NoData
    } else if code == raw::TEE_ERROR_OUT_OF_MEMORY {
        ErrorKind::OutOfMemory
    } else if code == raw::TEE_ERROR_BUSY {
        ErrorKind::Busy
    } else if code == raw::TEE_ERROR_COMMUNICATION {
        ErrorKind::Communication
    } else if code == raw::TEE_ERROR_SECURITY {
        ErrorKind::Security
    } else if code == raw::TEE_ERROR_SHORT_BUFFER {
        ErrorKind::ShortBuffer
    } else if code == raw::TEE_ERROR_EXTERNAL_CANCEL {
        ErrorKind::ExternalCancel
    } else if code == raw::TEE_ERROR_OVERFLOW {
        ErrorKind::Overflow
    } else if code == raw::TEE_ERROR_TARGET_DEAD {
        ErrorKind::TargetDead
    } else if code == raw::TEE_ERROR_STORAGE_NO_SPACE {
        ErrorKind::StorageNoSpace
    } else if code == raw::TEE_ERROR_MAC_INVALID {
        ErrorKind::MacInvalid
    } else if code == raw::TEE_ERROR_SIGNATURE_INVALID {
        ErrorKind::SignatureInvalid
    } else if code == raw::TEE_ERROR_TIME_NOT_SET {
        ErrorKind::TimeNotSet
    } else if code == raw::TEE_ERROR_TIME_NEEDS_RESET {
        ErrorKind::TimeNeedsReset
    } else {
        ErrorKind::Unknown(code)
    }
}

/// The message that describes an error kind.
pub open spec fn spec_kind_message(kind: ErrorKind) -> Seq<char> {
    match kind {
        ErrorKind::CorruptObject => "Object corruption."@,
        ErrorKind::CorruptObject2 => "Persistent object corruption."@,
        ErrorKind::StorageNotAvailable => "Object storage is not available."@,
        ErrorKind::StorageNotAvailable2 => "Persistent object storage is not available."@,
        ErrorKind::Generic => "Non-specific cause."@,
        ErrorKind::AccessDenied => "Access privileges are not sufficient."@,
        ErrorKind::Cancel => "The operation was canceled."@,
        ErrorKind::AccessConflict => "Concurrent accesses caused conflict."@,
        ErrorKind::ExcessData => "Too much data for the requested operation was passed."@,
        ErrorKind::BadFormat => "Input data was of invalid format."@,
        ErrorKind::BadParameters => "Input parameters were invalid."@,
        ErrorKind::BadState => "Operation is not valid in the current state."@,
        ErrorKind::ItemNotFound => "The requested data item is not found."@,
        ErrorKind::NotImplemented => "The requested operation should exist but is not yet implemented."@,
        ErrorKind::NotSupported => "The requested operation is valid but is not supported in this implementation."@,
        ErrorKind::NoData => "Expected data was missing."@,
        ErrorKind::OutOfMemory => "System ran out of resources."@,
        ErrorKind::Busy => "The system is busy working on something else."@,
        ErrorKind::Communication => "Communication with a remote party failed."@,
        ErrorKind::Security => "A security fault was detected."@,
        ErrorKind::ShortBuffer => "The supplied buffer is too short for the generated output."@,
        ErrorKind::ExternalCancel => "Undocumented."@,
        ErrorKind::Overflow => "Data overflow."@,
        ErrorKind::TargetDead => "Trusted Application has panicked during the operation."@,
        ErrorKind::StorageNoSpace => "Insufficient space is available."@,
        ErrorKind::MacInvalid => "MAC is invalid."@,
        ErrorKind::SignatureInvalid => "Signature is invalid."@,
        ErrorKind::TimeNotSet => "The persistent time has not been set."@,
        ErrorKind::TimeNeedsReset => "The persistent time has been set but may have been corrupted and SHALL no longer be trusted."@,
        ErrorKind::Unknown(_) => "Unknown error."@,
    }
}

impl ErrorKind {
    /// The kind that a raw TEE result code stands for.
    pub fn from_code(code: u32) -> (kind: ErrorKind)
        ensures
            kind == spec_kind_of_code(code),
    {
        if code == raw::TEE_ERROR_CORRUPT_OBJECT {
            ErrorKind::CorruptObject
        } else if code == raw::TEE_ERROR_CORRUPT_OBJECT_2 {
            ErrorKind::CorruptObject2
        } else if code == raw::TEE_ERROR_STORAGE_NOT_AVAILABLE {
            ErrorKind::StorageNotAvailable
        } else if code == raw::TEE_ERROR_STORAGE_NOT_AVAILABLE_2 {
            ErrorKind::StorageNotAvailable2
        } else if code == raw::TEE_ERROR_GENERIC {
            ErrorKind::Generic
        } else if code == raw::TEE_ERROR_ACCESS_DENIED {
            ErrorKind::AccessDenied
        } else if code == raw::TEE_ERROR_CANCEL {
            ErrorKind::Cancel
        } else if code == raw::TEE_ERROR_ACCESS_CONFLICT {
            ErrorKind::AccessConflict
        } else if code == raw::TEE_ERROR_EXCESS_DATA {
            ErrorKind::ExcessData
        } else if code == raw::TEE_ERROR_BAD_FORMAT {
            ErrorKind::BadFormat
        } else if code == raw::TEE_ERROR_BAD_PARAMETERS {
            ErrorKind::BadParameters
        } else if code == raw::TEE_ERROR_BAD_STATE {
            ErrorKind::BadState
        } else if code == raw::TEE_ERROR_ITEM_NOT_FOUND {
            ErrorKind::ItemNotFound
        } else if code == raw::TEE_ERROR_NOT_IMPLEMENTED {
            ErrorKind::NotImplemented
        } else if code == raw::TEE_ERROR_NOT_SUPPORTED {
            ErrorKind::NotSupported
        } else if code == raw::TEE_ERROR_NO_DATA {
            ErrorKind::NoData
        } else if code == raw::TEE_ERROR_OUT_OF_MEMORY {
            ErrorKind::OutOfMemory
        } else if code == raw::TEE_ERROR_BUSY {
            ErrorKind::Busy
        } else if code == raw::TEE_ERROR_COMMUNICATION {
            ErrorKind::Communication
        } else if code == raw::TEE_ERROR_SECURITY {
            ErrorKind::Security
        } else if code == raw::TEE_ERROR_SHORT_BUFFER {
            ErrorKind::ShortBuffer
        } else if code == raw::TEE_ERROR_EXTERNAL_CANCEL {
            ErrorKind::ExternalCancel
        } else if code == raw::TEE_ERROR_OVERFLOW {
            ErrorKind::Overflow
        } else if code == raw::TEE_ERROR_TARGET_DEAD {
            ErrorKind::TargetDead
        } else if code == raw::TEE_ERROR_STORAGE_NO_SPACE {
            ErrorKind::StorageNoSpace
        } else if code == raw::TEE_ERROR_MAC_INVALID {
            ErrorKind::MacInvalid
        } else if code == raw::TEE_ERROR_SIGNATURE_INVALID {
            ErrorKind::SignatureInvalid
        } else if code == raw::TEE_ERROR_TIME_NOT_SET {
            ErrorKind::TimeNotSet
        } else if code == raw::TEE_ERROR_TIME_NEEDS_RESET {
            ErrorKind::TimeNeedsReset
        } else {
            ErrorKind::Unknown(code)
        }
    }

    /// The raw TEE result code of this kind.
    pub fn code(&self) -> (code: u32)
        ensures
            code == spec_kind_code(*self),
    {
        match *self {
            ErrorKind::CorruptObject => raw::TEE_ERROR_CORRUPT_OBJECT,
            ErrorKind::CorruptObject2 => raw::TEE_ERROR_CORRUPT_OBJECT_2,
            ErrorKind::StorageNotAvailable => raw::TEE_ERROR_STORAGE_NOT_AVAILABLE,
            ErrorKind::StorageNotAvailable2 => raw::TEE_ERROR_STORAGE_NOT_AVAILABLE_2,
            ErrorKind::Generic => raw::TEE_ERROR_GENERIC,
            ErrorKind::AccessDenied => raw::TEE_ERROR_ACCESS_DENIED,
            ErrorKind::Cancel => raw::TEE_ERROR_CANCEL,
            ErrorKind::AccessConflict => raw::TEE_ERROR_ACCESS_CONFLICT,
            ErrorKind::ExcessData => raw::TEE_ERROR_EXCESS_DATA,
            ErrorKind::BadFormat => raw::TEE_ERROR_BAD_FORMAT,
            ErrorKind::BadParameters => raw::TEE_ERROR_BAD_PARAMETERS,
            ErrorKind::BadState => raw::TEE_ERROR_BAD_STATE,
            ErrorKind::ItemNotFound => raw::TEE_ERROR_ITEM_NOT_FOUND,
            ErrorKind::NotImplemented => raw::TEE_ERROR_NOT_IMPLEMENTED,
            ErrorKind::NotSupported => raw::TEE_ERROR_NOT_SUPPORTED,
            ErrorKind::NoData => raw::TEE_ERROR_NO_DATA,
            ErrorKind::OutOfMemory => raw::TEE_ERROR_OUT_OF_MEMORY,
            ErrorKind::Busy => raw::TEE_ERROR_BUSY,
            ErrorKind::Communication => raw::TEE_ERROR_COMMUNICATION,
            ErrorKind::Security => raw::TEE_ERROR_SECURITY,
            ErrorKind::ShortBuffer => raw::TEE_ERROR_SHORT_BUFFER,
            ErrorKind::ExternalCancel => raw::TEE_ERROR_EXTERNAL_CANCEL,
            ErrorKind::Overflow => raw::TEE_ERROR_OVERFLOW,
            ErrorKind::TargetDead => raw::TEE_ERROR_TARGET_DEAD,
            ErrorKind::StorageNoSpace => raw::TEE_ERROR_STORAGE_NO_SPACE,
            ErrorKind::MacInvalid => raw::TEE_ERROR_MAC_INVALID,
            ErrorKind::SignatureInvalid => raw::TEE_ERROR_SIGNATURE_INVALID,
            ErrorKind::TimeNotSet => raw::TEE_ERROR_TIME_NOT_SET,
            ErrorKind::TimeNeedsReset => raw::TEE_ERROR_TIME_NEEDS_RESET,
            ErrorKind::Unknown(code) => code,
        }
    }

    /// The message that describes this kind.
    pub fn as_str(&self) -> (message: &'static str)
        ensures
            message@ == spec_kind_message(*self),
    {
        match *self {
            ErrorKind::CorruptObject => "Object corruption.",
            ErrorKind::CorruptObject2 => "Persistent object corruption.",
            ErrorKind::StorageNotAvailable => "Object storage is not available.",
            ErrorKind::StorageNotAvailable2 => "Persistent object storage is not available.",
            ErrorKind::Generic => "Non-specific cause.",
            ErrorKind::AccessDenied => "Access privileges are not sufficient.",
            ErrorKind::Cancel => "The operation was canceled.",
            ErrorKind::AccessConflict => "Concurrent accesses caused conflict.",
            ErrorKind::ExcessData => "Too much data for the requested operation was passed.",
            ErrorKind::BadFormat => "Input data was of invalid format.",
            ErrorKind::BadParameters => "Input parameters were invalid.",
            ErrorKind::BadState => "Operation is not valid in the current state.",
            ErrorKind::ItemNotFound => "The requested data item is not found.",
            ErrorKind::NotImplemented => "The requested operation should exist but is not yet implemented.",
            ErrorKind::NotSupported => "The requested operation is valid but is not supported in this implementation.",
            ErrorKind::NoData => "Expected data was missing.",
            ErrorKind::OutOfMemory => "System ran out of resources.",
            ErrorKind::Busy => "The system is busy working on something else.",
            ErrorKind::Communication => "Communication with a remote party failed.",
            ErrorKind::Security => "A security fault was detected.",
            ErrorKind::ShortBuffer => "The supplied buffer is too short for the generated output.",
            ErrorKind::ExternalCancel => "Undocumented.",
            ErrorKind::Overflow => "Data overflow.",
            ErrorKind::TargetDead => "Trusted Application has panicked during the operation.",
            ErrorKind::StorageNoSpace => "Insufficient space is available.",
            ErrorKind::MacInvalid => "MAC is invalid.",
            ErrorKind::SignatureInvalid => "Signature is invalid.",
            ErrorKind::TimeNotSet => "The persistent time has not been set.",
            ErrorKind::TimeNeedsReset => "The persistent time has been set but may have been corrupted and SHALL no longer be trusted.",
            ErrorKind::Unknown(_) => "Unknown error.",
        }
    }
}

impl From<u32> for ErrorKind {
    fn from(code: u32) -> (kind: ErrorKind) {
        ErrorKind::from_code(code)
    }
}

impl vstd::std_specs::convert::FromSpecImpl<u32> for ErrorKind {
    open spec fn obeys_from_spec() -> bool {
        true
    }

    open spec fn from_spec(code: u32) -> ErrorKind {
        spec_kind_of_code(code)
    }
}

impl From<ErrorKind> for u32 {
    fn from(kind: ErrorKind) -> (code: u32) {
        kind.code()
    }
}

impl vstd::std_specs::convert::FromSpecImpl<ErrorKind> for u32 {
    open spec fn obeys_from_spec() -> bool {
        true
    }

    open spec fn from_spec(kind: ErrorKind) -> u32 {
        spec_kind_code(kind)
    }
}

/// Each named error kind has the GlobalPlatform TEE result code of the same
/// name (`ItemNotFound` is `TEE_ERROR_ITEM_NOT_FOUND`, 0xFFFF0008, and so on),
/// and that code reads back as that kind.
pub proof fn lemma_kinds_have_their_codes()
    ensures
        spec_kind_code(ErrorKind::CorruptObject) == 0xF010_0001u32,
        spec_kind_code(ErrorKind::CorruptObject2) == 0xF010_0002u32,
        spec_kind_code(ErrorKind::StorageNotAvailable) == 0xF010_0003u32,
        spec_kind_code(ErrorKind::StorageNotAvailable2) == 0xF010_0004u32,
        spec_kind_code(ErrorKind::Generic) == 0xFFFF_0000u32,
        spec_kind_code(ErrorKind::AccessDenied) == 0xFFFF_0001u32,
        spec_kind_code(ErrorKind::Cancel) == 0xFFFF_0002u32,
        spec_kind_code(ErrorKind::AccessConflict) == 0xFFFF_0003u32,
        spec_kind_code(ErrorKind::ExcessData) == 0xFFFF_0004u32,
        spec_kind_code(ErrorKind::BadFormat) == 0xFFFF_0005u32,
        spec_kind_code(ErrorKind::BadParameters) == 0xFFFF_0006u32,
        spec_kind_code(ErrorKind::BadState) == 0xFFFF_0007u32,
        spec_kind_code(ErrorKind::ItemNotFound) == 0xFFFF_0008u32,
        spec_kind_code(ErrorKind::NotImplemented) == 0xFFFF_0009u32,
        spec_kind_code(ErrorKind::NotSupported) == 0xFFFF_000Au32,
        spec_kind_code(ErrorKind::NoData) == 0xFFFF_000Bu32,
        spec_kind_code(ErrorKind::OutOfMemory) == 0xFFFF_000Cu32,
        spec_kind_code(ErrorKind::Busy) == 0xFFFF_000Du32,
        spec_kind_code(ErrorKind::Communication) == 0xFFFF_000Eu32,
        spec_kind_code(ErrorKind::Security) == 0xFFFF_000Fu32,
        spec_kind_code(ErrorKind::ShortBuffer) == 0xFFFF_0010u32,
        spec_kind_code(ErrorKind::ExternalCancel) == 0xFFFF_0011u32,
        spec_kind_code(ErrorKind::Overflow) == 0xFFFF_300Fu32,
        spec_kind_code(ErrorKind::TargetDead) == 0xFFFF_3024u32,
        spec_kind_code(ErrorKind::StorageNoSpace) == 0xFFFF_3041u32,
        spec_kind_code(ErrorKind::MacInvalid) == 0xFFFF_3071u32,
        spec_kind_code(ErrorKind::SignatureInvalid) == 0xFFFF_3072u32,
        spec_kind_code(ErrorKind::TimeNotSet) == 0xFFFF_5000u32,
        spec_kind_code(ErrorKind::TimeNeedsReset) == 0xFFFF_5001u32,
        spec_kind_of_code(0xF010_0001u32) == ErrorKind::CorruptObject,
        spec_kind_of_code(0xF010_0002u32) == ErrorKind::CorruptObject2,
        spec_kind_of_code(0xF010_0003u32) == ErrorKind::StorageNotAvailable,
        spec_kind_of_code(0xF010_0004u32) == ErrorKind::StorageNotAvailable2,
        spec_kind_of_code(0xFFFF_0000u32) == ErrorKind::Generic,
        spec_kind_of_code(0xFFFF_0001u32) == ErrorKind::AccessDenied,
        spec_kind_of_code(0xFFFF_0002u32) == ErrorKind::Cancel,
        spec_kind_of_code(0xFFFF_0003u32) == ErrorKind::AccessConflict,
        spec_kind_of_code(0xFFFF_0004u32) == ErrorKind::ExcessData,
        spec_kind_of_code(0xFFFF_0005u32) == ErrorKind::BadFormat,
        spec_kind_of_code(0xFFFF_0006u32) == ErrorKind::BadParameters,
        spec_kind_of_code(0xFFFF_0007u32) == ErrorKind::BadState,
        spec_kind_of_code(0xFFFF_0008u32) == ErrorKind::ItemNotFound,
        spec_kind_of_code(0xFFFF_0009u32) == ErrorKind::NotImplemented,
        spec_kind_of_code(0xFFFF_000Au32) == ErrorKind::NotSupported,
        spec_kind_of_code(0xFFFF_000Bu32) == ErrorKind::NoData,
        spec_kind_of_code(0xFFFF_000Cu32) == ErrorKind::OutOfMemory,
        spec_kind_of_code(0xFFFF_000Du32) == ErrorKind::Busy,
        spec_kind_of_code(0xFFFF_000Eu32) == ErrorKind::Communication,
        spec_kind_of_code(0xFFFF_000Fu32) == ErrorKind::Security,
        spec_kind_of_code(0xFFFF_0010u32) == ErrorKind::ShortBuffer,
        spec_kind_of_code(0xFFFF_0011u32) == ErrorKind::ExternalCancel,
        spec_kind_of_code(0xFFFF_300Fu32) == ErrorKind::Overflow,
        spec_kind_of_code(0xFFFF_3024u32) == ErrorKind::TargetDead,
        spec_kind_of_code(0xFFFF_3041u32) == ErrorKind::StorageNoSpace,
        spec_kind_of_code(0xFFFF_3071u32) == ErrorKind::MacInvalid,
        spec_kind_of_code(0xFFFF_3072u32) == ErrorKind::SignatureInvalid,
        spec_kind_of_code(0xFFFF_5000u32) == ErrorKind::TimeNotSet,
        spec_kind_of_code(0xFFFF_5001u32) == ErrorKind::TimeNeedsReset,
{
}

/// Every raw code survives the trip through `ErrorKind`: the kind that a code
/// stands for has that code again.
pub proof fn lemma_code_round_trip(code: u32)
    ensures
        spec_kind_code(spec_kind_of_code(code)) == code,
{
}

/// Every kind survives the trip through its raw code, except an `Unknown`
/// that holds the code of a named kind (that code reads back as the named
/// kind).
pub proof fn lemma_kind_round_trip(kind: ErrorKind)
    requires
        !(kind is Unknown && is_known_code(kind->Unknown_0)),
    ensures
        spec_kind_of_code(spec_kind_code(kind)) == kind,
{
}

/// The origin of an error: the part of the system where it arose.
#[derive(Clone, Debug, PartialEq, Eq, Structural)]
pub enum ErrorOrigin {
    Api,
    Comms,
    Tee,
    Ta,
    Unknown,
}

impl ErrorOrigin {
    /// A copy of this origin.
    fn copied(&self) -> (origin: ErrorOrigin)
        ensures
            origin == *self,
    {
        match self {
            ErrorOrigin::Api => ErrorOrigin::Api,
            ErrorOrigin::Comms => ErrorOrigin::Comms,
            ErrorOrigin::Tee => ErrorOrigin::Tee,
            ErrorOrigin::Ta => ErrorOrigin::Ta,
            ErrorOrigin::Unknown => ErrorOrigin::Unknown,
        }
    }
}

/// The raw code of an origin; `Unknown` takes the value that follows the
/// trusted-application origin.
pub open spec fn spec_origin_code(origin: ErrorOrigin) -> u32 {
    match origin {
        ErrorOrigin::Api => raw::TEE_ORIGIN_API,
        ErrorOrigin::Comms => raw::TEE_ORIGIN_COMMS,
        ErrorOrigin::Tee => raw::TEE_ORIGIN_TEE,
        ErrorOrigin::Ta => raw::TEE_ORIGIN_TRUSTED_APP,
        ErrorOrigin::Unknown => 5,
    }
}

/// The origin that a raw code stands for; every unrecognized code is `Unknown`.
pub open spec fn spec_origin_of_code(code: u32) -> ErrorOrigin {
    if code == raw::TEE_ORIGIN_API {
        ErrorOrigin::Api
    } else if code == raw::TEE_ORIGIN_COMMS {
        ErrorOrigin::Comms
    } else if code == raw::TEE_ORIGIN_TEE {
        ErrorOrigin::Tee
    } else if code == raw::TEE_ORIGIN_TRUSTED_APP {
        ErrorOrigin::Ta
    } else {
        ErrorOrigin::Unknown
    }
}

impl Default for ErrorOrigin {
    fn default() -> (origin: ErrorOrigin)
        ensures
            origin == ErrorOrigin::Unknown,
    {
        ErrorOrigin::Unknown
    }
}

impl From<ErrorOrigin> for u32 {
    fn from(origin: ErrorOrigin) -> (code: u32) {
        match origin {
            ErrorOrigin::Api => raw::TEE_ORIGIN_API,
            ErrorOrigin::Comms => raw::TEE_ORIGIN_COMMS,
            ErrorOrigin::Tee => raw::TEE_ORIGIN_TEE,
            ErrorOrigin::Ta => raw::TEE_ORIGIN_TRUSTED_APP,
            ErrorOrigin::Unknown => 5,
        }
    }
}

impl vstd::std_specs::convert::FromSpecImpl<ErrorOrigin> for u32 {
    open spec fn obeys_from_spec() -> bool {
        true
    }

    open spec fn from_spec(origin: ErrorOrigin) -> u32 {
        spec_origin_code(origin)
    }
}

impl From<u32> for ErrorOrigin {
    fn from(code: u32) -> (origin: ErrorOrigin) {
        if code == raw::TEE_ORIGIN_API {
            ErrorOrigin::Api
        } else if code == raw::TEE_ORIGIN_COMMS {
            ErrorOrigin::Comms
        } else if code == raw::TEE_ORIGIN_TEE {
            ErrorOrigin::Tee
        } else if code == raw::TEE_ORIGIN_TRUSTED_APP {
            ErrorOrigin::Ta
        } else {
            ErrorOrigin::Unknown
        }
    }
}

impl vstd::std_specs::convert::FromSpecImpl<u32> for ErrorOrigin {
    open spec fn obeys_from_spec() -> bool {
        true
    }

    open spec fn from_spec(code: u32) -> ErrorOrigin {
        spec_origin_of_code(code)
    }
}

/// Each origin has the GlobalPlatform origin code of the same name (API 1,
/// communications 2, TEE 3, trusted application 4), and that code reads back
/// as that origin; `Unknown` is 5, and every code past the named ones reads
/// as `Unknown`.
pub proof fn lemma_origins_have_their_codes(code: u32)
    ensures
        spec_origin_code(ErrorOrigin::Api) == 1u32,
        spec_origin_code(ErrorOrigin::Comms) == 2u32,
        spec_origin_code(ErrorOrigin::Tee) == 3u32,
        spec_origin_code(ErrorOrigin::Ta) == 4u32,
        spec_origin_code(ErrorOrigin::Unknown) == 5u32,
        spec_origin_of_code(1) == ErrorOrigin::Api,
        spec_origin_of_code(2) == ErrorOrigin::Comms,
        spec_origin_of_code(3) == ErrorOrigin::Tee,
        spec_origin_of_code(4) == ErrorOrigin::Ta,
        (code == 0 || code > 4) ==> spec_origin_of_code(code) == ErrorOrigin::Unknown,
{
}

/// Every origin survives the trip through its raw code.
pub proof fn lemma_origin_round_trip(origin: ErrorOrigin)
    ensures
        spec_origin_of_code(spec_origin_code(origin)) == origin,
{
}

/// A TEE error: its kind and, where known, the origin it arose from.
#[derive(Clone, Debug)]
pub struct Error {
    kind: ErrorKind,
    origin: Option<ErrorOrigin>,
}

impl Error {
    /// The kind of this error.
    pub closed spec fn spec_kind(&self) -> ErrorKind {
        self.kind
    }

    /// The origin of this error, if one was attached.
    pub closed spec fn spec_origin(&self) -> Option<ErrorOrigin> {
        self.origin
    }

    /// The error of the given kind with no origin.
    pub closed spec fn spec_new(kind: ErrorKind) -> Error {
        Error { kind, origin: None }
    }

    /// An error of the given kind with no origin.
    pub fn new(kind: ErrorKind) -> (error: Error)
        ensures
            error == Error::spec_new(kind),
            error.spec_kind() == kind,
            error.spec_origin() == None::<ErrorOrigin>,
    {
        Error { kind, origin: None }
    }

    /// An error from a raw TEE result code; unrecognized codes keep their value
    /// in `ErrorKind::Unknown`.
    pub fn from_raw_error(code: u32) -> (error: Error)
        ensures
            error.spec_kind() == spec_kind_of_code(code),
            spec_kind_code(error.spec_kind()) == code,
            error.spec_origin() == None::<ErrorOrigin>,
    {
        Error { kind: ErrorKind::from_code(code), origin: None }
    }

    /// This error with its origin set.
    pub fn with_origin(self, origin: ErrorOrigin) -> (error: Error)
        ensures
            error.spec_kind() == self.spec_kind(),
            error.spec_origin() == Some(origin),
    {
        let mut error = self;
        error.origin = Some(origin);
        error
    }

    /// The kind of this error.
    pub fn kind(&self) -> (kind: ErrorKind)
        ensures
            kind == self.spec_kind(),
    {
        self.kind
    }

    /// The origin of this error.
    pub fn origin(&self) -> (origin: Option<ErrorOrigin>)
        ensures
            origin == self.spec_origin(),
    {
        match &self.origin {
            Some(o) => Some(o.copied()),
            None => None,
        }
    }

    /// The raw code of this error.
    pub fn raw_code(&self) -> (code: u32)
        ensures
            code == spec_kind_code(self.spec_kind()),
    {
        self.kind.code()
    }

    /// The message that describes this error.
    pub fn message(&self) -> (message: &'static str)
        ensures
            message@ == spec_kind_message(self.spec_kind()),
    {
        self.kind.as_str()
    }

    /// The text of this error: its message, then its raw code and the raw
    /// code of its origin (0 when it has none) in hexadecimal:
    /// `<message> (error code 0xffff0010, origin 0x3)`.
    pub fn to_string(&self) -> (text: String)
        ensures
            text@ == spec_error_text(self.spec_kind(), self.spec_origin()),
    {
        let mut text = String::from_str(self.message());
        text.append(" (error code 0x");
        append_hex(&mut text, self.raw_code() as u64);
        text.append(", origin 0x");
        let origin: u32 = match self.origin() {
            Some(o) => o.into(),
            None => 0,
        };
        append_hex(&mut text, origin as u64);
        text.append(")");
        text
    }
}

/// The text of an error of the given kind and origin.
pub open spec fn spec_error_text(kind: ErrorKind, origin: Option<ErrorOrigin>) -> Seq<char> {
    spec_kind_message(kind) + " (error code 0x"@ + spec_hex(spec_kind_code(kind) as nat)
        + ", origin 0x"@ + spec_hex(
        match origin {
            Some(o) => spec_origin_code(o),
            None => 0,
        } as nat,
    ) + ")"@
}

impl From<ErrorKind> for Error {
    fn from(kind: ErrorKind) -> (error: Error)
        ensures
            error.spec_kind() == kind,
            error.spec_origin() == None::<ErrorOrigin>,
    {
        Error { kind, origin: None }
    }
}

impl vstd::std_specs::convert::FromSpecImpl<ErrorKind> for Error {
    open spec fn obeys_from_spec() -> bool {
        true
    }

    open spec fn from_spec(kind: ErrorKind) -> Error {
        Error::spec_new(kind)
    }
}

} // verus!
