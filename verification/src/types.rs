//! Core data model: the challenge, the evidence artifacts, the error
//! taxonomy and the TEE variant tag.

use vstd::prelude::*;

verus! {

/// Number of bytes a challenge must have.
pub const CHALLENGE_LEN: usize = 64;

/// Number of bytes a measurement digest must have.
pub const DIGEST_LEN: usize = 32;

/// Largest valid register index of the measurement chain.
pub const MAX_REGISTER_INDEX: u64 = 23;

/// Tag identifying one concrete TEE variant.
#[derive(Clone, Copy, Debug, PartialEq, Eq, Structural)]
pub enum TeeType {
    /// TDX confidential virtual machine with a virtual TPM.
    AzTdxVtpm,
}

/// A caller-supplied freshness nonce binding one attestation attempt.
///
/// Holds exactly [`CHALLENGE_LEN`] raw bytes; the constructor rejects any
/// other length, so no implicit truncation or padding can desynchronize the
/// bound value from what the caller supplied.
pub struct Challenge {
    bytes: Vec<u8>,
}

impl View for Challenge {
    type V = Seq<u8>;

    closed spec fn view(&self) -> Seq<u8> {
        self.bytes@
    }
}

impl Challenge {
    /// A challenge always carries exactly [`CHALLENGE_LEN`] bytes.
    pub open spec fn wf(&self) -> bool {
        self@.len() == CHALLENGE_LEN
    }

    /// Validates the length strictly at the boundary and captures the bytes.
    pub fn new(bytes: Vec<u8>) -> (r: Result<Challenge, EvidenceError>)
        ensures
            bytes@.len() == CHALLENGE_LEN ==> (r matches Ok(c) && c@ == bytes@ && c.wf()),
            bytes@.len() != CHALLENGE_LEN ==> r == Err::<Challenge, EvidenceError>(
                EvidenceError::InvalidChallenge,
            ),
    {
        if bytes.len() == CHALLENGE_LEN {
            Ok(Challenge { bytes })
        } else {
            Err(EvidenceError::InvalidChallenge)
        }
    }

    /// The captured bytes, unchanged.
    pub fn bytes(&self) -> (r: &Vec<u8>)
        ensures
            r@ == self@,
    {
        &self.bytes
    }
}

/// A quote produced by the virtual TPM over the challenge.
pub struct TpmQuote {
    /// Signature over the quoted message, by the TPM attestation key.
    pub signature: Vec<u8>,
    /// The signed quote message, which embeds the challenge as its nonce.
    pub message: Vec<u8>,
}

/// Mathematical image of a [`TpmQuote`].
pub struct TpmQuoteView {
    pub signature: Seq<u8>,
    pub message: Seq<u8>,
}

impl View for TpmQuote {
    type V = TpmQuoteView;

    open spec fn view(&self) -> TpmQuoteView {
        TpmQuoteView { signature: self.signature@, message: self.message@ }
    }
}

/// The combined, challenge-bound artifact set of one attestation attempt.
pub struct EvidenceBundle {
    /// Quote from the virtual TPM, bound to the challenge.
    pub tpm_quote: TpmQuote,
    /// Raw bytes of the hypervisor launch report, bound to the challenge.
    pub hcl_report: Vec<u8>,
    /// Quoting-service device quote over the report extracted from the
    /// hypervisor report.
    pub td_quote: Vec<u8>,
}

/// Mathematical image of an [`EvidenceBundle`].
pub struct EvidenceBundleView {
    pub tpm_quote: TpmQuoteView,
    pub hcl_report: Seq<u8>,
    pub td_quote: Seq<u8>,
}

impl View for EvidenceBundle {
    type V = EvidenceBundleView;

    open spec fn view(&self) -> EvidenceBundleView {
        EvidenceBundleView {
            tpm_quote: self.tpm_quote@,
            hcl_report: self.hcl_report@,
            td_quote: self.td_quote@,
        }
    }
}

/// Byte-for-byte copy of a buffer. Used wherever one value of the protocol
/// (above all the challenge) must be handed out again without any chance of
/// truncation, padding or re-encoding.
pub fn copy_bytes(src: &Vec<u8>) -> (copy: Vec<u8>)
    ensures
        copy@ == src@,
{
    let mut out: Vec<u8> = Vec::new();
    let mut i: usize = 0;
    while i < src.len()
        invariant
            i <= src@.len(),
            out@ == src@.subrange(0, i as int),
        decreases src@.len() - i,
    {
        out.push(src[i]);
        proof {
            assert(src@.subrange(0, i as int).push(src@[i as int]) =~= src@.subrange(
                0,
                i as int + 1,
            ));
        }
        i = i + 1;
    }
    proof {
        assert(out@ =~= src@);
    }
    out
}

/// Why an attestation attempt failed.
///
/// Messages of external failures are carried verbatim: the assembler never
/// rewrites, retries or partially recovers from an external error.
#[derive(Debug)]
pub enum EvidenceError {
    /// The supplied challenge does not have exactly [`CHALLENGE_LEN`] bytes.
    InvalidChallenge,
    /// Acquiring the hypervisor launch report failed.
    ReportAcquisition { message: String },
    /// The hypervisor report was structurally incompatible; fatal and
    /// non-retriable.
    MalformedReport { message: String },
    /// The quoting service could not produce a device quote.
    QuotingService { message: String },
    /// The virtual TPM could not produce a quote.
    TpmQuoteAcquisition { message: String },
}

/// Why an extension of the measurement chain was rejected.
#[derive(Clone, Copy, Debug, PartialEq, Eq, Structural)]
pub enum ExtendError {
    /// The digest does not have exactly [`DIGEST_LEN`] bytes.
    InvalidDigest,
    /// The register index is outside `0 ..= MAX_REGISTER_INDEX`.
    InvalidRegisterIndex,
}

} // verus!
