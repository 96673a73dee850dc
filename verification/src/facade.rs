//! The attester facade: the capability surface of the TDX + vTPM variant.
//!
//! One value of [`AzTdxVtpmAttester`] stands for the selected variant and
//! routes every call to the variant's assembler and extender.

use vstd::prelude::*;
use crate::assembler;
use crate::assembler::AssemblyAction;
use crate::assembler::AssemblyState;
use crate::extender;
use crate::extender::ExtendCommand;
use crate::types::Challenge;
use crate::types::EvidenceError;
use crate::types::ExtendError;
use crate::types::TeeType;
use crate::types::CHALLENGE_LEN;
use crate::types::DIGEST_LEN;
use crate::types::MAX_REGISTER_INDEX;

verus! {

/// The TDX + vTPM attestation variant.
#[derive(Debug, Default)]
pub struct AzTdxVtpmAttester;

impl AzTdxVtpmAttester {
    /// The tag of this variant. Pure and constant: every call on every
    /// value returns the same tag.
    pub fn get_type(&self) -> (tee_type: TeeType)
        ensures
            tee_type == TeeType::AzTdxVtpm,
    {
        TeeType::AzTdxVtpm
    }

    /// Starts one evidence-assembly run. The challenge length is validated
    /// strictly at this boundary: exactly [`CHALLENGE_LEN`] raw bytes, no
    /// implicit truncation or padding. On success the run is bound to the
    /// given bytes and its first action acquires the launch report under
    /// exactly those bytes; the caller drives the run on with
    /// [`assembler::step`].
    pub fn start_evidence(&self, report_data: Vec<u8>) -> (r: Result<
        (AssemblyState, AssemblyAction),
        EvidenceError,
    >)
        ensures
            report_data@.len() != CHALLENGE_LEN ==> (r matches Err(e) && e
                == EvidenceError::InvalidChallenge),
            report_data@.len() == CHALLENGE_LEN ==> (r matches Ok(p) && {
                &&& assembler::bound_to(p.0, report_data@)
                &&& assembler::action_bound_to(p.1, report_data@)
                &&& p.0 matches AssemblyState::AwaitingHclReport { challenge: c } && c@
                    == report_data@
                &&& p.1 matches AssemblyAction::FetchHclReport { challenge: b } && b@
                    == report_data@
                &&& assembler::state_wf(p.0)
            }),
    {
        let challenge = match Challenge::new(report_data) {
            Ok(challenge) => challenge,
            Err(error) => {
                return Err(error);
            },
        };
        Ok(assembler::start(challenge))
    }

    /// Validates one measurement-extension request, failing fast before
    /// any external call, and returns the validated command for the
    /// firmware primitive to carry out.
    pub fn extend_runtime_measurement(&self, event_digest: &Vec<u8>, register_index: u64) -> (r:
        Result<ExtendCommand, ExtendError>)
        ensures
            event_digest@.len() != DIGEST_LEN ==> r == Err::<ExtendCommand, ExtendError>(
                ExtendError::InvalidDigest,
            ),
            event_digest@.len() == DIGEST_LEN && register_index > MAX_REGISTER_INDEX ==> r
                == Err::<ExtendCommand, ExtendError>(ExtendError::InvalidRegisterIndex),
            event_digest@.len() == DIGEST_LEN && register_index <= MAX_REGISTER_INDEX ==> (
            r matches Ok(cmd) && cmd.register_index == register_index && cmd.digest@
                == event_digest@ && cmd.wf()),
    {
        extender::prepare_extend(event_digest, register_index)
    }
}

} // verus!
