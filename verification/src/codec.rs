//! Transport encoding of an evidence bundle.
//!
//! The bundle is framed as four length-prefixed fields — TPM-quote
//! signature, TPM-quote message, launch report, device quote — each length
//! an eight-byte little-endian count. The format is this variant's own; a
//! decoded bundle is proved to equal the encoded one, field for field.

use vstd::prelude::*;
use crate::types::EvidenceBundle;
use crate::types::EvidenceBundleView;
use crate::types::TpmQuote;
use crate::types::TpmQuoteView;

verus! {

/// The eight bytes of `n` in little-endian order.
pub open spec fn u64_le_bytes(n: u64) -> Seq<u8> {
    seq![
        (n & 0xff) as u8,
        ((n >> 8) & 0xff) as u8,
        ((n >> 16) & 0xff) as u8,
        ((n >> 24) & 0xff) as u8,
        ((n >> 32) & 0xff) as u8,
        ((n >> 40) & 0xff) as u8,
        ((n >> 48) & 0xff) as u8,
        ((n >> 56) & 0xff) as u8,
    ]
}

/// The number eight little-endian bytes denote.
pub open spec fn u64_from_le_bytes(s: Seq<u8>) -> u64
    recommends
        s.len() == 8,
{
    (s[0] as u64) | ((s[1] as u64) << 8) | ((s[2] as u64) << 16) | ((s[3] as u64) << 24) | ((
    s[4] as u64) << 32) | ((s[5] as u64) << 40) | ((s[6] as u64) << 48) | ((s[7] as u64) << 56)
}

/// Reading the eight little-endian bytes of `n` back gives `n`.
pub proof fn lemma_u64_le_round_trip(n: u64)
    ensures
        u64_from_le_bytes(u64_le_bytes(n)) == n,
{
    assert(((n & 0xff) as u8 as u64) | ((((n >> 8) & 0xff) as u8 as u64) << 8) | ((((n >> 16)
        & 0xff) as u8 as u64) << 16) | ((((n >> 24) & 0xff) as u8 as u64) << 24) | ((((n >> 32)
        & 0xff) as u8 as u64) << 32) | ((((n >> 40) & 0xff) as u8 as u64) << 40) | ((((n >> 48)
        & 0xff) as u8 as u64) << 48) | ((((n >> 56) & 0xff) as u8 as u64) << 56) == n)
        by (bit_vector);
}

/// One field on the wire: its length as eight little-endian bytes, then its
/// bytes.
pub open spec fn spec_encode_field(data: Seq<u8>) -> Seq<u8>
    recommends
        data.len() <= u64::MAX,
{
    u64_le_bytes(data.len() as u64) + data
}

/// The whole bundle on the wire: the four fields, each length-prefixed, in
/// fixed order.
pub open spec fn spec_encode_bundle(b: EvidenceBundleView) -> Seq<u8> {
    spec_encode_field(b.tpm_quote.signature) + spec_encode_field(b.tpm_quote.message)
        + spec_encode_field(b.hcl_report) + spec_encode_field(b.td_quote)
}

/// Splits one length-prefixed field off the front, if the bytes carry one:
/// the field and the remainder.
pub open spec fn spec_parse_field(bytes: Seq<u8>) -> Option<(Seq<u8>, Seq<u8>)> {
    if bytes.len() < 8 {
        None
    } else {
        let n = u64_from_le_bytes(bytes.subrange(0, 8)) as int;
        if bytes.len() < 8 + n {
            None
        } else {
            Some((bytes.subrange(8, 8 + n), bytes.subrange(8 + n, bytes.len() as int)))
        }
    }
}

/// The bundle the bytes denote: four length-prefixed fields consuming the
/// bytes exactly, or nothing.
pub open spec fn spec_decode_bundle(bytes: Seq<u8>) -> Option<EvidenceBundleView> {
    match spec_parse_field(bytes) {
        Option::None => None,
        Option::Some((signature, rest1)) => match spec_parse_field(rest1) {
            Option::None => None,
            Option::Some((message, rest2)) => match spec_parse_field(rest2) {
                Option::None => None,
                Option::Some((hcl_report, rest3)) => match spec_parse_field(rest3) {
                    Option::None => None,
                    Option::Some((td_quote, rest4)) => if rest4.len() == 0 {
                        Some(
                            EvidenceBundleView {
                                tpm_quote: TpmQuoteView { signature, message },
                                hcl_report,
                                td_quote,
                            },
                        )
                    } else {
                        None
                    },
                },
            },
        },
    }
}

/// Parsing an encoded field off the front of a buffer gives the field back
/// unchanged, with the remainder untouched.
pub proof fn lemma_parse_encoded_field(data: Seq<u8>, rest: Seq<u8>)
    requires
        data.len() <= u64::MAX,
    ensures
        spec_parse_field(spec_encode_field(data) + rest) == Some((data, rest)),
{
    let bytes = spec_encode_field(data) + rest;
    let prefix = u64_le_bytes(data.len() as u64);
    assert(bytes.subrange(0, 8) =~= prefix);
    lemma_u64_le_round_trip(data.len() as u64);
    let n = u64_from_le_bytes(bytes.subrange(0, 8)) as int;
    assert(n == data.len());
    assert(bytes.subrange(8, 8 + n) =~= data);
    assert(bytes.subrange(8 + n, bytes.len() as int) =~= rest);
}

/// Round trip: decoding an encoded bundle yields the bundle again,
/// structurally equal field for field.
pub proof fn lemma_bundle_round_trip(b: EvidenceBundleView)
    requires
        b.tpm_quote.signature.len() <= u64::MAX,
        b.tpm_quote.message.len() <= u64::MAX,
        b.hcl_report.len() <= u64::MAX,
        b.td_quote.len() <= u64::MAX,
    ensures
        spec_decode_bundle(spec_encode_bundle(b)) == Some(b),
{
    let e1 = spec_encode_field(b.tpm_quote.signature);
    let e2 = spec_encode_field(b.tpm_quote.message);
    let e3 = spec_encode_field(b.hcl_report);
    let e4 = spec_encode_field(b.td_quote);
    let rest1 = e2 + e3 + e4;
    let rest2 = e3 + e4;
    let empty = Seq::<u8>::empty();
    assert(spec_encode_bundle(b) =~= e1 + rest1);
    lemma_parse_encoded_field(b.tpm_quote.signature, rest1);
    assert(rest1 =~= e2 + rest2);
    lemma_parse_encoded_field(b.tpm_quote.message, rest2);
    assert(rest2 =~= e3 + e4);
    lemma_parse_encoded_field(b.hcl_report, e4);
    assert(e4 =~= e4 + empty);
    lemma_parse_encoded_field(b.td_quote, empty);
    assert(spec_decode_bundle(spec_encode_bundle(b)) =~~= Some(b));
}

/// Appends the eight little-endian bytes of `n`.
fn push_u64_le(out: &mut Vec<u8>, n: u64)
    ensures
        final(out)@ == old(out)@ + u64_le_bytes(n),
{
    proof {
        assert((n & 0xff) < 256 && ((n >> 8) & 0xff) < 256 && ((n >> 16) & 0xff) < 256 && ((n
            >> 24) & 0xff) < 256 && ((n >> 32) & 0xff) < 256 && ((n >> 40) & 0xff) < 256 && ((n
            >> 48) & 0xff) < 256 && ((n >> 56) & 0xff) < 256) by (bit_vector);
    }
    out.push((n & 0xff) as u8);
    out.push(((n >> 8) & 0xff) as u8);
    out.push(((n >> 16) & 0xff) as u8);
    out.push(((n >> 24) & 0xff) as u8);
    out.push(((n >> 32) & 0xff) as u8);
    out.push(((n >> 40) & 0xff) as u8);
    out.push(((n >> 48) & 0xff) as u8);
    out.push(((n >> 56) & 0xff) as u8);
    proof {
        assert(out@ =~= old(out)@ + u64_le_bytes(n));
    }
}

/// Appends one field: its length prefix, then its bytes.
fn push_field(out: &mut Vec<u8>, data: &Vec<u8>)
    ensures
        final(out)@ == old(out)@ + spec_encode_field(data@),
{
    push_u64_le(out, data.len() as u64);
    let mut i: usize = 0;
    while i < data.len()
        invariant
            i <= data@.len(),
            out@ == old(out)@ + u64_le_bytes(data@.len() as u64) + data@.subrange(0, i as int),
        decreases data@.len() - i,
    {
        out.push(data[i]);
        proof {
            assert(data@.subrange(0, i as int).push(data@[i as int]) =~= data@.subrange(
                0,
                i as int + 1,
            ));
        }
        i = i + 1;
    }
    proof {
        assert(data@.subrange(0, data@.len() as int) =~= data@);
        assert(out@ =~= old(out)@ + spec_encode_field(data@));
    }
}

/// Encodes the bundle for transport. Encoding is total: every bundle has a
/// wire form, and the result is exactly [`spec_encode_bundle`] of it.
pub fn encode_bundle(bundle: &EvidenceBundle) -> (encoded: Vec<u8>)
    ensures
        encoded@ == spec_encode_bundle(bundle@),
{
    let mut out: Vec<u8> = Vec::new();
    push_field(&mut out, &bundle.tpm_quote.signature);
    push_field(&mut out, &bundle.tpm_quote.message);
    push_field(&mut out, &bundle.hcl_report);
    push_field(&mut out, &bundle.td_quote);
    proof {
        assert(out@ =~= spec_encode_bundle(bundle@));
    }
    out
}

/// Reads the eight little-endian bytes at `offset` as one number.
fn read_u64_le(bytes: &Vec<u8>, offset: usize) -> (n: u64)
    requires
        offset + 8 <= bytes@.len(),
    ensures
        n == u64_from_le_bytes(bytes@.subrange(offset as int, offset as int + 8)),
{
    let total = bytes.len();
    proof {
        assert(offset + 8 <= total);
    }
    let n = (bytes[offset] as u64) | ((bytes[offset + 1] as u64) << 8) | ((bytes[offset
        + 2] as u64) << 16) | ((bytes[offset + 3] as u64) << 24) | ((bytes[offset + 4] as u64)
        << 32) | ((bytes[offset + 5] as u64) << 40) | ((bytes[offset + 6] as u64) << 48) | ((
    bytes[offset + 7] as u64) << 56);
    proof {
        let s = bytes@.subrange(offset as int, offset as int + 8);
        assert(s[0] == bytes@[offset as int]);
        assert(s[1] == bytes@[offset as int + 1]);
        assert(s[2] == bytes@[offset as int + 2]);
        assert(s[3] == bytes@[offset as int + 3]);
        assert(s[4] == bytes@[offset as int + 4]);
        assert(s[5] == bytes@[offset as int + 5]);
        assert(s[6] == bytes@[offset as int + 6]);
        assert(s[7] == bytes@[offset as int + 7]);
    }
    n
}

/// What is left of the buffer from `offset` on.
pub open spec fn tail_from(bytes: Seq<u8>, offset: int) -> Seq<u8> {
    bytes.subrange(offset, bytes.len() as int)
}

/// Reads one length-prefixed field at `offset`: the field and the offset
/// just past it, or nothing where the remainder carries no whole field.
fn read_field(bytes: &Vec<u8>, offset: usize) -> (r: Option<(Vec<u8>, usize)>)
    requires
        offset <= bytes@.len(),
    ensures
        match r {
            Option::Some(parsed) => {
                &&& parsed.1 <= bytes@.len()
                &&& spec_parse_field(tail_from(bytes@, offset as int)) == Some(
                    (parsed.0@, tail_from(bytes@, parsed.1 as int)),
                )
            },
            Option::None => spec_parse_field(tail_from(bytes@, offset as int)) is None,
        },
{
    let remaining = bytes.len() - offset;
    if remaining < 8 {
        return None;
    }
    let n = read_u64_le(bytes, offset);
    proof {
        assert(tail_from(bytes@, offset as int).subrange(0, 8) =~= bytes@.subrange(
            offset as int,
            offset as int + 8,
        ));
    }
    if ((remaining - 8) as u64) < n {
        return None;
    }
    let n_size = n as usize;
    let start = offset + 8;
    let end = start + n_size;
    let mut field: Vec<u8> = Vec::new();
    let mut i: usize = start;
    while i < end
        invariant
            start <= i <= end,
            end <= bytes@.len(),
            start == offset + 8,
            field@ == bytes@.subrange(start as int, i as int),
        decreases end - i,
    {
        field.push(bytes[i]);
        proof {
            assert(bytes@.subrange(start as int, i as int).push(bytes@[i as int])
                =~= bytes@.subrange(start as int, i as int + 1));
        }
        i = i + 1;
    }
    proof {
        let t = tail_from(bytes@, offset as int);
        assert(field@ =~= t.subrange(8, 8 + n as int));
        assert(tail_from(bytes@, end as int) =~= t.subrange(8 + n as int, t.len() as int));
    }
    Some((field, end))
}

/// Decodes a transport buffer back into a bundle. The result is exactly
/// what [`spec_decode_bundle`] says the bytes denote: a bundle whenever the
/// buffer is four whole length-prefixed fields and nothing else, and no
/// bundle otherwise.
pub fn decode_bundle(bytes: &Vec<u8>) -> (r: Option<EvidenceBundle>)
    ensures
        match r {
            Option::Some(bundle) => spec_decode_bundle(bytes@) == Some(bundle@),
            Option::None => spec_decode_bundle(bytes@) is None,
        },
{
    proof {
        assert(tail_from(bytes@, 0) =~= bytes@);
    }
    let r1 = read_field(bytes, 0);
    match r1 {
        None => None,
        Some((signature, o1)) => {
            let r2 = read_field(bytes, o1);
            match r2 {
                None => None,
                Some((message, o2)) => {
                    let r3 = read_field(bytes, o2);
                    match r3 {
                        None => None,
                        Some((hcl_report, o3)) => {
                            let r4 = read_field(bytes, o3);
                            match r4 {
                                None => None,
                                Some((td_quote, o4)) => {
                                    if o4 != bytes.len() {
                                        return None;
                                    }
                                    let bundle = EvidenceBundle {
                                        tpm_quote: TpmQuote { signature, message },
                                        hcl_report,
                                        td_quote,
                                    };
                                    proof {
                                        assert(tail_from(bytes@, o4 as int).len() == 0);
                                        assert(spec_decode_bundle(bytes@) =~~= Some(bundle@));
                                    }
                                    Some(bundle)
                                },
                            }
                        },
                    }
                },
            }
        },
    }
}

} // verus!
