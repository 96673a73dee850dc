//! Tests of the evidence-assembly protocol: the happy path over fixture
//! artifacts, the binding of every quoting action to the starting
//! challenge, and verbatim error propagation.

use attester::assembler::step;
use attester::assembler::AssemblyAction;
use attester::assembler::AssemblyEvent;
use attester::assembler::AssemblyState;
use attester::types::EvidenceError;
use attester::types::TpmQuote;
use attester::AzTdxVtpmAttester;

fn fixture_hcl_report() -> Vec<u8> {
    vec![0x11u8; 40]
}

fn fixture_td_quote() -> Vec<u8> {
    vec![0x22u8; 24]
}

fn fixture_tpm_quote() -> TpmQuote {
    TpmQuote { signature: vec![0x33u8; 16], message: vec![0x44u8; 48] }
}

#[test]
fn assemble_zero_challenge_with_fixtures() {
    let attester = AzTdxVtpmAttester::default();
    let challenge = vec![0u8; 64];

    let (state, action) = attester.start_evidence(challenge.clone()).unwrap();
    match &action {
        AssemblyAction::FetchHclReport { challenge: c } => assert_eq!(c, &challenge),
        _ => panic!("expected the launch-report fetch first"),
    }

    let (state, action) = step(
        state,
        AssemblyEvent::HclReportFetched { report: fixture_hcl_report() },
    );
    match &action {
        AssemblyAction::ParseTdReport { hcl_report } => {
            assert_eq!(hcl_report, &fixture_hcl_report())
        }
        _ => panic!("expected the report conversion next"),
    }

    let (state, action) = step(state, AssemblyEvent::TdReportParsed);
    assert!(matches!(action, AssemblyAction::FetchTdQuote));

    let (state, action) = step(
        state,
        AssemblyEvent::TdQuoteFetched { td_quote: fixture_td_quote() },
    );
    match &action {
        // The binding invariant, observed: the TPM quote is requested over
        // exactly the challenge the run started with.
        AssemblyAction::FetchTpmQuote { challenge: c } => assert_eq!(c, &challenge),
        _ => panic!("expected the TPM quote fetch last"),
    }

    let (state, action) = step(
        state,
        AssemblyEvent::TpmQuoteFetched { quote: fixture_tpm_quote() },
    );
    assert!(matches!(action, AssemblyAction::Stop));
    match state {
        AssemblyState::Complete { bundle } => {
            assert_eq!(bundle.hcl_report, fixture_hcl_report());
            assert_eq!(bundle.td_quote, fixture_td_quote());
            assert_eq!(bundle.tpm_quote.signature, fixture_tpm_quote().signature);
            assert_eq!(bundle.tpm_quote.message, fixture_tpm_quote().message);
        }
        _ => panic!("expected a completed run"),
    }
}

#[test]
fn assemble_rejects_wrong_challenge_length() {
    let attester = AzTdxVtpmAttester;
    for len in [0usize, 1, 63, 65, 128] {
        match attester.start_evidence(vec![0u8; len]) {
            Err(EvidenceError::InvalidChallenge) => {}
            _ => panic!("a {len}-byte challenge must be rejected"),
        }
    }
}

fn run_to_awaiting_td_quote(challenge: Vec<u8>) -> AssemblyState {
    let attester = AzTdxVtpmAttester;
    let (state, _) = attester.start_evidence(challenge).unwrap();
    let (state, _) = step(
        state,
        AssemblyEvent::HclReportFetched { report: fixture_hcl_report() },
    );
    let (state, _) = step(state, AssemblyEvent::TdReportParsed);
    state
}

#[test]
fn quoting_service_error_surfaces_verbatim() {
    let state = run_to_awaiting_td_quote(vec![7u8; 64]);
    let (state, action) = step(
        state,
        AssemblyEvent::TdQuoteFailed { message: String::from("connection timed out") },
    );
    assert!(matches!(action, AssemblyAction::Stop));
    match state {
        AssemblyState::Failed { error: EvidenceError::QuotingService { message } } => {
            assert_eq!(message, "connection timed out");
        }
        _ => panic!("the service error must surface unmodified"),
    }
    // No detection or extension state is touched by a failed run: both
    // stay pure functions of their own inputs.
    assert!(attester::detect_platform::<String>(Ok(true)));
    let attester = AzTdxVtpmAttester;
    assert!(attester.extend_runtime_measurement(&vec![0u8; 32], 0).is_ok());
}

#[test]
fn report_acquisition_error_surfaces_verbatim() {
    let attester = AzTdxVtpmAttester;
    let (state, _) = attester.start_evidence(vec![0u8; 64]).unwrap();
    let (state, _) = step(
        state,
        AssemblyEvent::HclReportFailed { message: String::from("device missing") },
    );
    match state {
        AssemblyState::Failed { error: EvidenceError::ReportAcquisition { message } } => {
            assert_eq!(message, "device missing");
        }
        _ => panic!("the acquisition error must surface unmodified"),
    }
}

#[test]
fn malformed_report_is_fatal() {
    let attester = AzTdxVtpmAttester;
    let (state, _) = attester.start_evidence(vec![0u8; 64]).unwrap();
    let (state, _) = step(
        state,
        AssemblyEvent::HclReportFetched { report: vec![1, 2, 3] },
    );
    let (state, _) = step(
        state,
        AssemblyEvent::TdReportInvalid { message: String::from("unexpected report type") },
    );
    match state {
        AssemblyState::Failed { error: EvidenceError::MalformedReport { message } } => {
            assert_eq!(message, "unexpected report type");
        }
        _ => panic!("a malformed report must be fatal"),
    }
}

#[test]
fn tpm_quote_error_surfaces_verbatim() {
    let state = run_to_awaiting_td_quote(vec![9u8; 64]);
    let (state, _) = step(
        state,
        AssemblyEvent::TdQuoteFetched { td_quote: fixture_td_quote() },
    );
    let (state, _) = step(
        state,
        AssemblyEvent::TpmQuoteFailed { message: String::from("tpm busy") },
    );
    match state {
        AssemblyState::Failed { error: EvidenceError::TpmQuoteAcquisition { message } } => {
            assert_eq!(message, "tpm busy");
        }
        _ => panic!("the TPM error must surface unmodified"),
    }
}

#[test]
fn actions_carry_the_starting_challenge() {
    let challenge: Vec<u8> = (0u8..64).collect();
    let attester = AzTdxVtpmAttester;
    let (state, action) = attester.start_evidence(challenge.clone()).unwrap();
    let first = match action {
        AssemblyAction::FetchHclReport { challenge: c } => c,
        _ => panic!("expected the launch-report fetch first"),
    };
    let (state, _) = step(
        state,
        AssemblyEvent::HclReportFetched { report: fixture_hcl_report() },
    );
    let (state, _) = step(state, AssemblyEvent::TdReportParsed);
    let (_, action) = step(
        state,
        AssemblyEvent::TdQuoteFetched { td_quote: fixture_td_quote() },
    );
    let last = match action {
        AssemblyAction::FetchTpmQuote { challenge: c } => c,
        _ => panic!("expected the TPM quote fetch last"),
    };
    assert_eq!(first, challenge);
    assert_eq!(last, challenge);
}
