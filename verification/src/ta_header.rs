//! The header and properties that describe a trusted application to OP-TEE.
use vstd::prelude::*;

verus! {

pub const TA_FLAG_SINGLE_INSTANCE: u32 = 4;
pub const TA_FLAG_MULTI_SESSION: u32 = 8;
pub const TA_FLAG_INSTANCE_KEEP_ALIVE: u32 = 16;
pub const TA_FLAG_SECURE_DATA_PATH: u32 = 32;
pub const TA_FLAG_REMAP_SUPPORT: u32 = 64;
pub const TA_FLAG_CACHE_MAINTENANCE: u32 = 128;
pub const TA_FLAG_CONCURRENT: u32 = 256;
pub const TA_FLAG_DEVICE_ENUM: u32 = 512;
pub const TA_FLAG_DEVICE_ENUM_SUPP: u32 = 1024;
pub const TA_FLAG_DONT_CLOSE_HANDLE_ON_CORRUPT_OBJECT: u32 = 2048;
pub const TA_FLAG_DEVICE_ENUM_TEE_STORAGE_PRIVATE: u32 = 4096;
pub const TA_FLAG_INSTANCE_KEEP_CRASHED: u32 = 8192;
pub const TA_FLAG_EXEC_DDR: u32 = 0;
pub const TA_FLAG_USER_MODE: u32 = 0;

/// A UUID in the layout of the TEE API.
#[derive(Debug, Clone, Copy)]
pub struct TeeUuid {
    pub time_low: u32,
    pub time_mid: u16,
    pub time_hi_and_version: u16,
    pub clock_seq_and_node: [u8; 8],
}

/// The header of a trusted application.
#[allow(non_camel_case_types)]
#[derive(Debug, Clone, Copy)]
pub struct ta_head {
    pub uuid: TeeUuid,
    pub stack_size: u32,
    pub flags: u32,
    pub depr_entry: u64,
}

/// The type of a trusted-application property value.
#[allow(non_camel_case_types)]
#[derive(Debug, Clone, Copy, PartialEq, Eq, Structural)]
pub enum user_ta_prop_type {
    USER_TA_PROP_TYPE_BOOL,
    USER_TA_PROP_TYPE_U32,
    USER_TA_PROP_TYPE_UUID,
    USER_TA_PROP_TYPE_IDENTITY,
    USER_TA_PROP_TYPE_STRING,
    USER_TA_PROP_TYPE_BINARY_BLOCK,
    USER_TA_PROP_TYPE_U64,
    USER_TA_PROP_TYPE_INVALID,
}

/// A property of a trusted application: its name, the type of its value, and
/// the encoded value.
#[allow(non_camel_case_types)]
#[derive(Debug)]
pub struct user_ta_property {
    pub name: String,
    pub prop_type: user_ta_prop_type,
    pub value: Vec<u8>,
}

} // verus!
