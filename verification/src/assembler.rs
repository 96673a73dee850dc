//! Evidence assembly: the protocol that fuses the hypervisor launch report,
//! the quoting-service device quote and the virtual-TPM quote into one
//! bundle bound to a single challenge.
//!
//! The three acquisitions are blocking external I/O, so the protocol is a
//! state machine: each step consumes the outcome of the last external call
//! (an [`AssemblyEvent`]) and names the next external call to make (an
//! [`AssemblyAction`]). An unverified driver performs the calls in order;
//! everything the protocol decides — what is fetched under which challenge,
//! what reaches the bundle, and how a failure ends the run — is verified
//! here.

use vstd::prelude::*;
use crate::types::copy_bytes;
use crate::types::Challenge;
use crate::types::EvidenceBundle;
use crate::types::EvidenceError;
use crate::types::TpmQuote;

verus! {

/// Where one assembly run stands. A run walks the states top to bottom,
/// carrying the one challenge it was started with and every artifact
/// received so far, and ends in `Complete` or `Failed`.
pub enum AssemblyState {
    /// Step one is out: the hypervisor launch report is being acquired
    /// under the run's challenge.
    AwaitingHclReport { challenge: Challenge },
    /// Step two is out: the launch report is being converted into the
    /// structured report the quoting service takes.
    AwaitingTdReport { challenge: Challenge, hcl_report: Vec<u8> },
    /// Step three is out: the quoting service is producing the device
    /// quote over the structured report.
    AwaitingTdQuote { challenge: Challenge, hcl_report: Vec<u8> },
    /// Step four is out: the virtual TPM is quoting the same challenge the
    /// run started with.
    AwaitingTpmQuote { challenge: Challenge, hcl_report: Vec<u8>, td_quote: Vec<u8> },
    /// All three artifacts arrived and were packaged; the run is over.
    Complete { bundle: EvidenceBundle },
    /// An external call failed; the run is over, its error kept verbatim.
    Failed { error: EvidenceError },
}

/// The next external call the driver must make for the protocol. Whatever
/// an action needs from earlier steps it carries itself, except the
/// structured report of step two, which only the platform crate can hold:
/// the driver keeps that one between `ParseTdReport` and `FetchTdQuote`.
pub enum AssemblyAction {
    /// Acquire the hypervisor launch report bound to these challenge bytes.
    FetchHclReport { challenge: Vec<u8> },
    /// Convert this launch report into the structured report; keep the
    /// result for the quote that follows.
    ParseTdReport { hcl_report: Vec<u8> },
    /// Send the kept structured report to the quoting service.
    FetchTdQuote,
    /// Have the virtual TPM quote these challenge bytes.
    FetchTpmQuote { challenge: Vec<u8> },
    /// Nothing further: the run is complete or failed.
    Stop,
}

/// The outcome of one external call, handed back to the protocol. Failure
/// messages are carried verbatim; the protocol never rewrites them.
pub enum AssemblyEvent {
    /// Step one returned the launch report bytes.
    HclReportFetched { report: Vec<u8> },
    /// Step one failed.
    HclReportFailed { message: String },
    /// Step two extracted the structured report (the driver keeps it).
    TdReportParsed,
    /// Step two found the launch report structurally incompatible.
    TdReportInvalid { message: String },
    /// Step three returned the device quote bytes.
    TdQuoteFetched { td_quote: Vec<u8> },
    /// Step three failed (service or network).
    TdQuoteFailed { message: String },
    /// Step four returned the virtual-TPM quote.
    TpmQuoteFetched { quote: TpmQuote },
    /// Step four failed.
    TpmQuoteFailed { message: String },
}

/// The state is still underway and this is the kind of event its
/// outstanding call can produce.
pub open spec fn state_accepts(state: AssemblyState, event: AssemblyEvent) -> bool {
    match state {
        AssemblyState::AwaitingHclReport { .. } => event is HclReportFetched || event
            is HclReportFailed,
        AssemblyState::AwaitingTdReport { .. } => event is TdReportParsed || event
            is TdReportInvalid,
        AssemblyState::AwaitingTdQuote { .. } => event is TdQuoteFetched || event
            is TdQuoteFailed,
        AssemblyState::AwaitingTpmQuote { .. } => event is TpmQuoteFetched || event
            is TpmQuoteFailed,
        AssemblyState::Complete { .. } => false,
        AssemblyState::Failed { .. } => false,
    }
}

/// The state is bound to the challenge bytes `c`: whichever step is
/// underway, the challenge the run carries is exactly `c`. Terminal states
/// hold no challenge any more.
pub open spec fn bound_to(state: AssemblyState, c: Seq<u8>) -> bool {
    match state {
        AssemblyState::AwaitingHclReport { challenge } => challenge@ == c,
        AssemblyState::AwaitingTdReport { challenge, .. } => challenge@ == c,
        AssemblyState::AwaitingTdQuote { challenge, .. } => challenge@ == c,
        AssemblyState::AwaitingTpmQuote { challenge, .. } => challenge@ == c,
        AssemblyState::Complete { .. } => true,
        AssemblyState::Failed { .. } => true,
    }
}

/// The action quotes nothing but the challenge bytes `c`: an action that
/// hands challenge bytes to a quoting primitive hands exactly `c`.
pub open spec fn action_bound_to(action: AssemblyAction, c: Seq<u8>) -> bool {
    match action {
        AssemblyAction::FetchHclReport { challenge } => challenge@ == c,
        AssemblyAction::FetchTpmQuote { challenge } => challenge@ == c,
        _ => true,
    }
}

/// The challenge a non-terminal state carries is well-formed.
pub open spec fn state_wf(state: AssemblyState) -> bool {
    match state {
        AssemblyState::AwaitingHclReport { challenge } => challenge.wf(),
        AssemblyState::AwaitingTdReport { challenge, .. } => challenge.wf(),
        AssemblyState::AwaitingTdQuote { challenge, .. } => challenge.wf(),
        AssemblyState::AwaitingTpmQuote { challenge, .. } => challenge.wf(),
        AssemblyState::Complete { .. } => true,
        AssemblyState::Failed { .. } => true,
    }
}

/// The one-step transition relation of the protocol. For every state that
/// still awaits an event it pins the successor state and the next action
/// down to the bytes: artifacts move into the state unchanged, the
/// challenge is never replaced, failure messages surface verbatim, and the
/// bundle of a completed run holds exactly the three artifacts the run
/// received.
pub open spec fn transition(
    state: AssemblyState,
    event: AssemblyEvent,
    next: AssemblyState,
    action: AssemblyAction,
) -> bool {
    match (state, event) {
        (
            AssemblyState::AwaitingHclReport { challenge },
            AssemblyEvent::HclReportFetched { report },
        ) => {
            &&& next matches AssemblyState::AwaitingTdReport { challenge: c, hcl_report: h }
                && c@ == challenge@ && h@ == report@
            &&& action matches AssemblyAction::ParseTdReport { hcl_report: h } && h@ == report@
        },
        (
            AssemblyState::AwaitingHclReport { challenge },
            AssemblyEvent::HclReportFailed { message },
        ) => {
            &&& next matches AssemblyState::Failed {
                error: EvidenceError::ReportAcquisition { message: m },
            } && m@ == message@
            &&& action is Stop
        },
        (
            AssemblyState::AwaitingTdReport { challenge, hcl_report },
            AssemblyEvent::TdReportParsed,
        ) => {
            &&& next matches AssemblyState::AwaitingTdQuote { challenge: c, hcl_report: h }
                && c@ == challenge@ && h@ == hcl_report@
            &&& action is FetchTdQuote
        },
        (
            AssemblyState::AwaitingTdReport { challenge, hcl_report },
            AssemblyEvent::TdReportInvalid { message },
        ) => {
            &&& next matches AssemblyState::Failed {
                error: EvidenceError::MalformedReport { message: m },
            } && m@ == message@
            &&& action is Stop
        },
        (
            AssemblyState::AwaitingTdQuote { challenge, hcl_report },
            AssemblyEvent::TdQuoteFetched { td_quote },
        ) => {
            &&& next matches AssemblyState::AwaitingTpmQuote {
                challenge: c,
                hcl_report: h,
                td_quote: q,
            } && c@ == challenge@ && h@ == hcl_report@ && q@ == td_quote@
            &&& action matches AssemblyAction::FetchTpmQuote { challenge: b } && b@ == challenge@
        },
        (
            AssemblyState::AwaitingTdQuote { challenge, hcl_report },
            AssemblyEvent::TdQuoteFailed { message },
        ) => {
            &&& next matches AssemblyState::Failed {
                error: EvidenceError::QuotingService { message: m },
            } && m@ == message@
            &&& action is Stop
        },
        (
            AssemblyState::AwaitingTpmQuote { challenge, hcl_report, td_quote },
            AssemblyEvent::TpmQuoteFetched { quote },
        ) => {
            &&& next matches AssemblyState::Complete { bundle } && bundle@.tpm_quote == quote@
                && bundle@.hcl_report == hcl_report@ && bundle@.td_quote == td_quote@
            &&& action is Stop
        },
        (
            AssemblyState::AwaitingTpmQuote { challenge, hcl_report, td_quote },
            AssemblyEvent::TpmQuoteFailed { message },
        ) => {
            &&& next matches AssemblyState::Failed {
                error: EvidenceError::TpmQuoteAcquisition { message: m },
            } && m@ == message@
            &&& action is Stop
        },
        _ => false,
    }
}

/// Starts one assembly run under the given challenge: the run is bound to
/// the challenge's bytes, and the first action acquires the launch report
/// under exactly those bytes.
pub fn start(challenge: Challenge) -> (r: (AssemblyState, AssemblyAction))
    ensures
        r.0 matches AssemblyState::AwaitingHclReport { challenge: c } && c@ == challenge@,
        r.1 matches AssemblyAction::FetchHclReport { challenge: b } && b@ == challenge@,
        bound_to(r.0, challenge@),
        action_bound_to(r.1, challenge@),
        challenge.wf() ==> state_wf(r.0),
{
    let bytes = copy_bytes(challenge.bytes());
    (
        AssemblyState::AwaitingHclReport { challenge },
        AssemblyAction::FetchHclReport { challenge: bytes },
    )
}

/// Advances one assembly run by the outcome of its outstanding external
/// call. The result is the successor state and the next action, exactly as
/// the [`transition`] relation pins them down.
pub fn step(state: AssemblyState, event: AssemblyEvent) -> (r: (AssemblyState, AssemblyAction))
    requires
        state_accepts(state, event),
    ensures
        transition(state, event, r.0, r.1),
{
    match (state, event) {
        (
            AssemblyState::AwaitingHclReport { challenge },
            AssemblyEvent::HclReportFetched { report },
        ) => {
            let for_parse = copy_bytes(&report);
            (
                AssemblyState::AwaitingTdReport { challenge, hcl_report: report },
                AssemblyAction::ParseTdReport { hcl_report: for_parse },
            )
        },
        (
            AssemblyState::AwaitingHclReport { challenge: _ },
            AssemblyEvent::HclReportFailed { message },
        ) => (
            AssemblyState::Failed { error: EvidenceError::ReportAcquisition { message } },
            AssemblyAction::Stop,
        ),
        (
            AssemblyState::AwaitingTdReport { challenge, hcl_report },
            AssemblyEvent::TdReportParsed,
        ) => (
            AssemblyState::AwaitingTdQuote { challenge, hcl_report },
            AssemblyAction::FetchTdQuote,
        ),
        (
            AssemblyState::AwaitingTdReport { challenge: _, hcl_report: _ },
            AssemblyEvent::TdReportInvalid { message },
        ) => (
            AssemblyState::Failed { error: EvidenceError::MalformedReport { message } },
            AssemblyAction::Stop,
        ),
        (
            AssemblyState::AwaitingTdQuote { challenge, hcl_report },
            AssemblyEvent::TdQuoteFetched { td_quote },
        ) => {
            let bytes = copy_bytes(challenge.bytes());
            (
                AssemblyState::AwaitingTpmQuote { challenge, hcl_report, td_quote },
                AssemblyAction::FetchTpmQuote { challenge: bytes },
            )
        },
        (
            AssemblyState::AwaitingTdQuote { challenge: _, hcl_report: _ },
            AssemblyEvent::TdQuoteFailed { message },
        ) => (
            AssemblyState::Failed { error: EvidenceError::QuotingService { message } },
            AssemblyAction::Stop,
        ),
        (
            AssemblyState::AwaitingTpmQuote { challenge: _, hcl_report, td_quote },
            AssemblyEvent::TpmQuoteFetched { quote },
        ) => (
            AssemblyState::Complete {
                bundle: EvidenceBundle { tpm_quote: quote, hcl_report, td_quote },
            },
            AssemblyAction::Stop,
        ),
        (
            AssemblyState::AwaitingTpmQuote { challenge: _, hcl_report: _, td_quote: _ },
            AssemblyEvent::TpmQuoteFailed { message },
        ) => (
            AssemblyState::Failed { error: EvidenceError::TpmQuoteAcquisition { message } },
            AssemblyAction::Stop,
        ),
        _ => vstd::pervasive::unreached(),
    }
}

/// Binding invariant of the assembly protocol: a run started under one
/// challenge stays bound to that challenge — no transition replaces it, and
/// every action that hands challenge bytes to a quoting primitive hands
/// exactly the bytes the run was started with. Artifacts obtained under two
/// different challenges can therefore never meet in one run.
pub proof fn lemma_transition_preserves_binding(
    state: AssemblyState,
    event: AssemblyEvent,
    next: AssemblyState,
    action: AssemblyAction,
    c: Seq<u8>,
)
    requires
        transition(state, event, next, action),
        bound_to(state, c),
    ensures
        bound_to(next, c),
        action_bound_to(action, c),
{
}

/// A transition keeps the challenge well-formed.
pub proof fn lemma_transition_preserves_wf(
    state: AssemblyState,
    event: AssemblyEvent,
    next: AssemblyState,
    action: AssemblyAction,
)
    requires
        transition(state, event, next, action),
        state_wf(state),
    ensures
        state_wf(next),
{
}

/// A run only ever completes out of the final step, and the bundle then
/// holds exactly the three artifacts the run received: the launch report of
/// step one, the device quote of step three, and the virtual-TPM quote that
/// the completing event carried. No artifact of another run can appear.
pub proof fn lemma_complete_bundle_from_run(
    state: AssemblyState,
    event: AssemblyEvent,
    next: AssemblyState,
    action: AssemblyAction,
)
    requires
        transition(state, event, next, action),
        next is Complete,
    ensures
        state is AwaitingTpmQuote,
        event is TpmQuoteFetched,
        (next->bundle)@.hcl_report == (state->AwaitingTpmQuote_hcl_report)@,
        (next->bundle)@.td_quote == (state->AwaitingTpmQuote_td_quote)@,
        (next->bundle)@.tpm_quote == (event->quote)@,
        action is Stop,
{
}

} // verus!
