//! Diagnostic extraction: given the value a driver status query reported and
//! the raw bytes of the driver's info log, decide whether the operation
//! succeeded, and on failure turn the log into readable text by dropping its
//! single trailing terminator byte and decoding the rest.

use vstd::prelude::*;

verus! {

use crate::STATUS_OK;
use vstd::utf8::valid_utf8;
use vstd::utf8::decode_utf8;

/// What a status/log query against a driver object came to.
pub enum DiagOutcome {
    /// The status flag reported success; the log is not consulted.
    Success,
    /// The status flag reported failure and the driver log decoded as text.
    Failure(String),
    /// The status flag reported failure but the driver log was not valid text;
    /// this is an internal inconsistency, not a shader bug.
    BadEncoding,
}

/// The raw driver log with its single trailing terminator byte removed.
pub open spec fn trimmed_log(raw: Seq<u8>) -> Seq<u8> {
    raw.take(raw.len() - 1)
}

/// Relies on `String::from_utf8`: it succeeds exactly when the bytes are
/// valid UTF-8, and the resulting string holds the characters those bytes
/// encode.
#[verifier::external_body]
fn decode_text(bytes: Vec<u8>) -> (r: Option<String>)
    ensures
        r is Some <==> valid_utf8(bytes@),
        r matches Some(s) ==> s@ == decode_utf8(bytes@),
{
    match String::from_utf8(bytes) {
        Ok(s) => Some(s),
        Err(_) => None,
    }
}

/// Given the reported status flag and the raw info log of a driver object,
/// return success, or the log decoded as text with its trailing terminator
/// dropped, or the distinct encoding failure.
pub fn extract_diagnostic(status: i32, raw_log: Vec<u8>) -> (r: DiagOutcome)
    requires
        status != STATUS_OK ==> raw_log@.len() >= 1,
    ensures
        r is Success <==> status == STATUS_OK,
        status != STATUS_OK ==> (r is Failure <==> valid_utf8(trimmed_log(raw_log@))),
        r matches DiagOutcome::Failure(s) ==> s@ == decode_utf8(trimmed_log(raw_log@)),
{
    if status == STATUS_OK {
        DiagOutcome::Success
    } else {
        let n = raw_log.len();
        let mut trimmed = raw_log;
        trimmed.truncate(n - 1);
        assert(trimmed@ == trimmed_log(raw_log@));
        match decode_text(trimmed) {
            Some(text) => DiagOutcome::Failure(text),
            None => DiagOutcome::BadEncoding,
        }
    }
}

/// A non-empty byte sequence that is valid UTF-8 decodes to at least one
/// character.
proof fn lemma_decode_nonempty(bytes: Seq<u8>)
    requires
        valid_utf8(bytes),
        bytes.len() > 0,
    ensures
        decode_utf8(bytes).len() > 0,
{
    assert(decode_utf8(bytes) == seq![
        vstd::utf8::decode_first_scalar(bytes) as char,
    ] + decode_utf8(vstd::utf8::pop_first_scalar(bytes)));
}

/// For any failing status whose raw driver log holds text beyond its single
/// trailing terminator, the extracted diagnostic text is non-empty and covers
/// exactly one byte fewer than the raw log.
pub proof fn lemma_diagnostic_trimmed(raw: Seq<u8>)
    requires
        raw.len() >= 2,
        valid_utf8(trimmed_log(raw)),
    ensures
        trimmed_log(raw).len() == raw.len() - 1,
        decode_utf8(trimmed_log(raw)).len() > 0,
{
    lemma_decode_nonempty(trimmed_log(raw));
}

} // verus!
