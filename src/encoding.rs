//! Byte fields that scenario files carry as base64 text (stdin and expected stdout).
use vstd::prelude::*;
use base64::Engine;
use vstd::string::StringSliceAdditionalSpecFns;
use crate::scenario::ScenarioError;

verus! {

#[verifier::external_type_specification]
#[verifier::external_body]
pub struct ExDecodeError(base64::DecodeError);

/// What the standard base64 alphabet, with padding, decodes the text `b` to;
/// nothing when `b` is not valid base64.
pub uninterp spec fn base64_decoded(b: Seq<u8>) -> Option<Seq<u8>>;

/// The standard base64 text, with padding, of the bytes `b`.
pub uninterp spec fn base64_encoded(b: Seq<u8>) -> Seq<char>;

/// Relies on `base64::engine::general_purpose::STANDARD.decode`: the bytes that
/// the base64 text `b` stands for, or an error when it is not valid base64.
#[verifier::external_body]
fn decode_standard(b: &[u8]) -> (r: Result<Vec<u8>, base64::DecodeError>)
    ensures
        match r {
            Ok(v) => base64_decoded(b@) == Some(v@),
            Err(_) => base64_decoded(b@) is None,
        },
{
    base64::engine::general_purpose::STANDARD.decode(b)
}

/// Relies on `base64::engine::general_purpose::STANDARD.encode`: the base64 text
/// of `b`. Its length computation panics only past `usize::MAX`, which the
/// bound on `b` rules out.
#[verifier::external_body]
fn encode_standard(b: &[u8]) -> (r: String)
    requires
        b@.len() <= usize::MAX / 2,
    ensures
        r@ == base64_encoded(b@),
{
    base64::engine::general_purpose::STANDARD.encode(b)
}

/// Whether `b` is ASCII whitespace: space, tab, line feed, form feed or carriage return.
pub open spec fn is_ascii_space(b: u8) -> bool {
    b == 0x20 || b == 0x09 || b == 0x0a || b == 0x0c || b == 0x0d
}

/// `b` without its ASCII whitespace.
pub open spec fn without_spaces(b: Seq<u8>) -> Seq<u8>
    decreases b.len(),
{
    if b.len() == 0 {
        Seq::empty()
    } else if is_ascii_space(b.last()) {
        without_spaces(b.drop_last())
    } else {
        without_spaces(b.drop_last()).push(b.last())
    }
}

/// The bytes of `text` without its ASCII whitespace.
pub fn strip_spaces(text: &str) -> (r: Vec<u8>)
    ensures
        r@ == without_spaces(text.spec_bytes()),
{
    let b = text.as_bytes();
    let mut r: Vec<u8> = Vec::new();
    let mut i: usize = 0;
    while i < b.len()
        invariant
            b@ == text.spec_bytes(),
            i <= b@.len(),
            r@ == without_spaces(b@.take(i as int)),
        decreases b@.len() - i,
    {
        let c = b[i];
        assert(b@.take(i as int + 1).drop_last() =~= b@.take(i as int));
        if !(c == 0x20 || c == 0x09 || c == 0x0a || c == 0x0c || c == 0x0d) {
            r.push(c);
        }
        i = i + 1;
    }
    assert(b@.take(i as int) =~= b@);
    r
}

/// Decodes a base64 field of a scenario file; whitespace inside the text (line
/// breaks of a long block) is ignored.
pub fn decode_field(text: &str) -> (r: Result<Vec<u8>, ScenarioError>)
    ensures
        match base64_decoded(without_spaces(text.spec_bytes())) {
            Some(v) => r matches Ok(x) && x@ == v,
            None => r == Err::<Vec<u8>, ScenarioError>(ScenarioError::InvalidBase64),
        },
{
    let cleaned = strip_spaces(text);
    match decode_standard(cleaned.as_slice()) {
        Ok(v) => Ok(v),
        Err(_) => Err(ScenarioError::InvalidBase64),
    }
}

/// Encodes bytes as a base64 field of a scenario file.
pub fn encode_field(bytes: &Vec<u8>) -> (r: String)
    requires
        bytes@.len() <= usize::MAX / 2,
    ensures
        r@ == base64_encoded(bytes@),
{
    encode_standard(bytes.as_slice())
}

} // verus!
