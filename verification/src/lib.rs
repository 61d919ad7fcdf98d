//! Verified core of an OP-TEE trusted-application toolkit: TEE errors and
//! parameters, volatile shared buffers, calendar dates, key material and
//! build configuration.
pub mod access;
pub mod aead;
pub mod attestation;
pub mod build_config;
pub mod build_plan;
pub mod cert;
pub mod command;
pub mod date;
pub mod der;
pub mod digits;
pub mod documents;
pub mod ecdsa;
pub mod error;
pub mod json;
pub mod key_utils;
pub mod parameter;
pub mod proxy;
pub mod raw;
pub mod rsa;
pub mod storage;
pub mod ta_header;
pub mod tee_key;
pub mod text;
pub mod typed_param;
pub mod volatile;
