//! Tests of the transport encoding: exact wire bytes, the round trip, and
//! rejection of damaged buffers.

use attester::codec::decode_bundle;
use attester::codec::encode_bundle;
use attester::types::EvidenceBundle;
use attester::types::TpmQuote;

fn sample_bundle() -> EvidenceBundle {
    EvidenceBundle {
        tpm_quote: TpmQuote {
            signature: vec![0xde, 0xad, 0xbe, 0xef],
            message: vec![0x01, 0x02, 0x03],
        },
        hcl_report: vec![0x10; 20],
        td_quote: vec![0x20; 5],
    }
}

#[test]
fn encode_produces_exact_wire_bytes() {
    let bundle = EvidenceBundle {
        tpm_quote: TpmQuote { signature: vec![0xaa], message: vec![] },
        hcl_report: vec![0xbb, 0xcc],
        td_quote: vec![],
    };
    let expected: Vec<u8> = vec![
        1, 0, 0, 0, 0, 0, 0, 0, 0xaa, // signature: length 1, then the byte
        0, 0, 0, 0, 0, 0, 0, 0, // message: length 0
        2, 0, 0, 0, 0, 0, 0, 0, 0xbb, 0xcc, // report: length 2, then the bytes
        0, 0, 0, 0, 0, 0, 0, 0, // device quote: length 0
    ];
    assert_eq!(encode_bundle(&bundle), expected);
}

#[test]
fn round_trip_is_structurally_equal() {
    let bundle = sample_bundle();
    let encoded = encode_bundle(&bundle);
    let decoded = decode_bundle(&encoded).expect("an encoded bundle must decode");
    assert_eq!(decoded.tpm_quote.signature, bundle.tpm_quote.signature);
    assert_eq!(decoded.tpm_quote.message, bundle.tpm_quote.message);
    assert_eq!(decoded.hcl_report, bundle.hcl_report);
    assert_eq!(decoded.td_quote, bundle.td_quote);
}

#[test]
fn round_trip_of_empty_fields() {
    let bundle = EvidenceBundle {
        tpm_quote: TpmQuote { signature: vec![], message: vec![] },
        hcl_report: vec![],
        td_quote: vec![],
    };
    let encoded = encode_bundle(&bundle);
    assert_eq!(encoded.len(), 32);
    let decoded = decode_bundle(&encoded).expect("an encoded bundle must decode");
    assert!(decoded.tpm_quote.signature.is_empty());
    assert!(decoded.tpm_quote.message.is_empty());
    assert!(decoded.hcl_report.is_empty());
    assert!(decoded.td_quote.is_empty());
}

#[test]
fn decode_rejects_truncated_buffer() {
    let mut encoded = encode_bundle(&sample_bundle());
    encoded.pop();
    assert!(decode_bundle(&encoded).is_none());
    assert!(decode_bundle(&vec![]).is_none());
    assert!(decode_bundle(&vec![0u8; 7]).is_none());
}

#[test]
fn decode_rejects_trailing_bytes() {
    let mut encoded = encode_bundle(&sample_bundle());
    encoded.push(0);
    assert!(decode_bundle(&encoded).is_none());
}

#[test]
fn decode_rejects_overlong_length_prefix() {
    // A single field claiming more bytes than the buffer holds.
    let mut bytes = vec![0xffu8; 8];
    bytes.extend_from_slice(&[0u8; 16]);
    assert!(decode_bundle(&bytes).is_none());
}
