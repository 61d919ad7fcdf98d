//! Data carried by remote attestation: the report, the enclave attributes a
//! verifier accepts, and the certificate chain that holds the report.
use vstd::prelude::*;

verus! {

/// An attestation report: the measurement of the enclave.
#[derive(Debug)]
pub struct AttestationReport {
    pub measurement: Vec<u8>,
}

impl Default for AttestationReport {
    /// The report with a measurement of 32 zero bytes.
    fn default() -> (report: AttestationReport)
        ensures
            report.measurement@ == Seq::new(32, |i: int| 0u8),
    {
        let mut measurement: Vec<u8> = Vec::new();
        let mut i: usize = 0;
        while i < 32
            invariant
                i <= 32,
                measurement@ == Seq::new(i as nat, |k: int| 0u8),
            decreases 32 - i,
        {
            measurement.push(0u8);
            i = i + 1;
            assert(measurement@ =~= Seq::new(i as nat, |k: int| 0u8));
        }
        AttestationReport { measurement }
    }
}

/// Attributes of an enclave that a verifier accepts.
#[derive(Debug, Clone, PartialEq, Eq)]
pub struct EnclaveAttr {
    pub measurement: Vec<u8>,
}

/// The issuer and subject of a certificate.
#[derive(Debug)]
pub struct CertInfo {
    pub issuer: String,
    pub subject: String,
}

/// The end, intermediate and root certificates of an attestation chain.
#[derive(Debug, Clone, PartialEq)]
pub struct AttestationCertChain {
    pub end: Vec<u8>,
    pub intermediate: Vec<u8>,
    pub root: Vec<u8>,
}

impl AttestationCertChain {
    /// The chain made of the first three presented certificates (end,
    /// intermediate, root); `None` when fewer than three are presented.
    pub fn from_presented_certs(certs: &Vec<Vec<u8>>) -> (chain: Option<AttestationCertChain>)
        ensures
            chain is Some <==> certs@.len() >= 3,
            chain matches Some(c) ==> c.end@ == certs@[0]@ && c.intermediate@ == certs@[1]@
                && c.root@ == certs@[2]@,
    {
        if certs.len() < 3 {
            return None;
        }
        Some(
            AttestationCertChain {
                end: vstd::slice::slice_to_vec(certs[0].as_slice()),
                intermediate: vstd::slice::slice_to_vec(certs[1].as_slice()),
                root: vstd::slice::slice_to_vec(certs[2].as_slice()),
            },
        )
    }
}

} // verus!
