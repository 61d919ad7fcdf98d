# optee_core

Verified core of a toolkit for OP-TEE trusted applications (TAs), their
client applications (CAs) and plugins, written in Verus.

`src/` is the library. Its verified functions carry contracts that Verus
proves; the few calls into outside crates (`ring` for AES-GCM, ECDSA and
randomness, `toml` and `serde_json` for parsing, std's UTF-8 check) stand behind small trusted
wrappers marked `#[verifier::external_body]`, whose contracts are believed,
not proved, and say in their doc comments what they claim:

- `error`, `raw`: TEE result codes and origins, and their round trips.
- `parameter`, `typed_param`, `volatile`, `access`: the four invocation
  parameters, their packed types, value and memory-reference access checked
  against the parameter type, and bounded shared buffers.
- `date`, `digits`: calendar dates from Unix timestamps and their text forms.
- `aead`, `ecdsa`, `tee_key`, `key_utils`, `rsa`, `storage`: AES-128-GCM data
  keys, ECDSA key pairs (both by `ring`), stored keys and the device's key
  pairs, and the file names of the local storage backend.
- `command`: the commands a TA serves, from the host and over TLS.
- `build_config`, `build_plan`, `json`, `text`: build configurations resolved
  from the command line, package metadata and defaults, and the commands that
  build, strip and sign TAs, CAs and plugins.
- `documents`: the package name and workspace table of a `Cargo.toml`, and the
  target directory in the output of `cargo metadata`.
- `attestation`, `ta_header`: attestation data and TA header types.
- `der`, `cert`: DER elements and X.509 v3 certificates for TLS-based remote
  attestation: an end certificate carrying the attestation report and two DNS
  names in its extensions, an intermediate CA certificate, both signed by an
  ECDSA key pair, and the issuer, subject, public key and report read back from
  such a certificate (proved to read back what was written).

`app/` is the unverified side: running `cargo metadata`, file reads, running
the planned commands, the clock that certificates are dated by, the JSON
form of attestation reports, and the `bincode` form of RSA public keys.

`tests/` runs the library on concrete values.
