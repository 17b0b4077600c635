//! Decoding of the engine's text fields.
//!
//! The engine writes a text into a fixed-size byte buffer and ends it with a
//! zero byte. What stands behind the first zero byte is of no account.

use crate::error::SpglibError;
use vstd::prelude::*;
use vstd::utf8::{decode_utf8, encode_utf8, valid_utf8};

verus! {

/// `end` is the place of the first zero byte of `raw`.
pub open spec fn ends_at(raw: Seq<u8>, end: int) -> bool {
    &&& 0 <= end < raw.len()
    &&& raw[end] == 0
    &&& forall|i: int| 0 <= i < end ==> raw[i] != 0
}

/// The bytes of `raw` before its first zero byte, if it holds one.
pub open spec fn payload(raw: Seq<u8>) -> Option<Seq<u8>> {
    if exists|end: int| ends_at(raw, end) {
        Some(raw.take(choose|end: int| ends_at(raw, end)))
    } else {
        None
    }
}

/// What a buffer decodes to: the text that its bytes before the first zero
/// byte encode in UTF-8. A buffer without a zero byte, or whose bytes before it
/// are not UTF-8, does not decode, and the failure is `Unknown`.
pub open spec fn decoded(raw: Seq<u8>) -> Result<Seq<char>, SpglibError> {
    match payload(raw) {
        Some(bytes) => if valid_utf8(bytes) {
            Ok(decode_utf8(bytes))
        } else {
            Err(SpglibError::Unknown)
        },
        None => Err(SpglibError::Unknown),
    }
}

/// Whether a buffer holds a text.
pub open spec fn decodable(raw: Seq<u8>) -> bool {
    decoded(raw) is Ok
}

/// Whether a buffer holds the text `text`.
pub open spec fn reads_as(raw: Seq<u8>, text: Seq<char>) -> bool {
    decoded(raw) == Ok::<Seq<char>, SpglibError>(text)
}

/// A buffer has at most one first zero byte.
pub proof fn lemma_end_unique(raw: Seq<u8>, a: int, b: int)
    requires
        ends_at(raw, a),
        ends_at(raw, b),
    ensures
        a == b,
{
    if a < b {
        assert(raw[a] != 0);
    } else if b < a {
        assert(raw[b] != 0);
    }
}

/// `String::from_utf8` of std: the string whose UTF-8 encoding is `bytes`,
/// or nothing where `bytes` is not UTF-8.
#[verifier::external_body]
fn string_from_utf8(bytes: Vec<u8>) -> (text: Option<String>)
    ensures
        text is Some <==> valid_utf8(bytes@),
        text matches Some(s) ==> encode_utf8(s@) == bytes@,
{
    String::from_utf8(bytes).ok()
}

/// Finds the first zero byte of `raw`.
pub fn text_end(raw: &[u8]) -> (end: Option<usize>)
    ensures
        match end {
            Some(e) => ends_at(raw@, e as int),
            None => forall|i: int| 0 <= i < raw@.len() ==> raw@[i] != 0,
        },
{
    let mut at: usize = 0;
    while at < raw.len()
        invariant
            at <= raw@.len(),
            forall|i: int| 0 <= i < at ==> raw@[i] != 0,
        decreases raw@.len() - at,
    {
        if raw[at] == 0 {
            return Some(at);
        }
        at += 1;
    }
    None
}

/// Decodes one text field of an engine record.
///
/// Succeeds exactly on the buffers that hold a zero byte and are UTF-8 before
/// it. Nothing is replaced or cut short: any other buffer is `Unknown`.
pub fn decode_text(raw: &[u8]) -> (text: Result<String, SpglibError>)
    ensures
        match text {
            Ok(s) => reads_as(raw@, s@),
            Err(e) => e == SpglibError::Unknown && !decodable(raw@),
        },
{
    let end = match text_end(raw) {
        Some(end) => end,
        None => {
            assert(forall|e: int| !ends_at(raw@, e));
            return Err(SpglibError::Unknown);
        },
    };
    proof {
        let chosen = choose|e: int| ends_at(raw@, e);
        lemma_end_unique(raw@, end as int, chosen);
    }
    let mut bytes: Vec<u8> = Vec::new();
    let mut at: usize = 0;
    while at < end
        invariant
            at <= end < raw@.len(),
            bytes@ == raw@.take(at as int),
        decreases end - at,
    {
        bytes.push(raw[at]);
        proof {
            assert(raw@.take(at + 1) =~= raw@.take(at as int).push(raw@[at as int]));
        }
        at += 1;
    }
    match string_from_utf8(bytes) {
        Some(s) => {
            proof {
                vstd::utf8::encode_utf8_decode_utf8(s@);
            }
            Ok(s)
        },
        None => Err(SpglibError::Unknown),
    }
}

} // verus!
