//! Numeric codes of the GlobalPlatform TEE Internal Core API as OP-TEE defines
//! them: result codes, error origins and parameter types.
use vstd::prelude::*;

verus! {

pub const TEE_SUCCESS: u32 = 0x0000_0000;
pub const TEE_ERROR_CORRUPT_OBJECT: u32 = 0xF010_0001;
pub const TEE_ERROR_CORRUPT_OBJECT_2: u32 = 0xF010_0002;
pub const TEE_ERROR_STORAGE_NOT_AVAILABLE: u32 = 0xF010_0003;
pub const TEE_ERROR_STORAGE_NOT_AVAILABLE_2: u32 = 0xF010_0004;
pub const TEE_ERROR_GENERIC: u32 = 0xFFFF_0000;
pub const TEE_ERROR_ACCESS_DENIED: u32 = 0xFFFF_0001;
pub const TEE_ERROR_CANCEL: u32 = 0xFFFF_0002;
pub const TEE_ERROR_ACCESS_CONFLICT: u32 = 0xFFFF_0003;
pub const TEE_ERROR_EXCESS_DATA: u32 = 0xFFFF_0004;
pub const TEE_ERROR_BAD_FORMAT: u32 = 0xFFFF_0005;
pub const TEE_ERROR_BAD_PARAMETERS: u32 = 0xFFFF_0006;
pub const TEE_ERROR_BAD_STATE: u32 = 0xFFFF_0007;
pub const TEE_ERROR_ITEM_NOT_FOUND: u32 = 0xFFFF_0008;
pub const TEE_ERROR_NOT_IMPLEMENTED: u32 = 0xFFFF_0009;
pub const TEE_ERROR_NOT_SUPPORTED: u32 = 0xFFFF_000A;
pub const TEE_ERROR_NO_DATA: u32 = 0xFFFF_000B;
pub const TEE_ERROR_OUT_OF_MEMORY: u32 = 0xFFFF_000C;
pub const TEE_ERROR_BUSY: u32 = 0xFFFF_000D;
pub const TEE_ERROR_COMMUNICATION: u32 = 0xFFFF_000E;
pub const TEE_ERROR_SECURITY: u32 = 0xFFFF_000F;
pub const TEE_ERROR_SHORT_BUFFER: u32 = 0xFFFF_0010;
pub const TEE_ERROR_EXTERNAL_CANCEL: u32 = 0xFFFF_0011;
pub const TEE_ERROR_OVERFLOW: u32 = 0xFFFF_300F;
pub const TEE_ERROR_TARGET_DEAD: u32 = 0xFFFF_3024;
pub const TEE_ERROR_STORAGE_NO_SPACE: u32 = 0xFFFF_3041;
pub const TEE_ERROR_MAC_INVALID: u32 = 0xFFFF_3071;
pub const TEE_ERROR_SIGNATURE_INVALID: u32 = 0xFFFF_3072;
pub const TEE_ERROR_TIME_NOT_SET: u32 = 0xFFFF_5000;
pub const TEE_ERROR_TIME_NEEDS_RESET: u32 = 0xFFFF_5001;

pub const TEE_ORIGIN_API: u32 = 0x0000_0001;
pub const TEE_ORIGIN_COMMS: u32 = 0x0000_0002;
pub const TEE_ORIGIN_TEE: u32 = 0x0000_0003;
pub const TEE_ORIGIN_TRUSTED_APP: u32 = 0x0000_0004;

pub const TEE_PARAM_TYPE_NONE: u32 = 0;
pub const TEE_PARAM_TYPE_VALUE_INPUT: u32 = 1;
pub const TEE_PARAM_TYPE_VALUE_OUTPUT: u32 = 2;
pub const TEE_PARAM_TYPE_VALUE_INOUT: u32 = 3;
pub const TEE_PARAM_TYPE_MEMREF_INPUT: u32 = 5;
pub const TEE_PARAM_TYPE_MEMREF_OUTPUT: u32 = 6;
pub const TEE_PARAM_TYPE_MEMREF_INOUT: u32 = 7;

/// The two 32-bit values of a value parameter.
#[derive(Debug)]
pub struct TeeValue {
    pub a: u32,
    pub b: u32,
}

/// A memory-reference parameter: the client address of the shared region
/// (0 for a null buffer), the size the client reports for it, and the bytes of
/// the region as the trusted application sees them.
#[derive(Debug)]
pub struct TeeMemref {
    pub buffer: usize,
    pub size: usize,
    pub contents: Vec<u8>,
}

impl TeeMemref {
    /// The region is null, or holds at least `size` bytes: what the client
    /// guarantees of a memory reference it passes.
    pub open spec fn spec_well_formed(&self) -> bool {
        self.buffer != 0 ==> self.size <= self.contents.len()
    }
}

/// One parameter slot of an invocation; which of its two halves is meaningful
/// is told by the parameter type that comes with it.
#[derive(Debug)]
pub struct TeeParam {
    pub value: TeeValue,
    pub memref: TeeMemref,
}

/// The four parameter slots of an invocation.
#[derive(Debug)]
pub struct RawParams(pub TeeParam, pub TeeParam, pub TeeParam, pub TeeParam);

} // verus!
