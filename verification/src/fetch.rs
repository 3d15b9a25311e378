//! The event fetcher's reply logic.
//!
//! The shell writes the helper script, runs the external interpreter and
//! collects what happened into a [`FetchOutcome`]; this module decides, for
//! every outcome, the exact text handed back to the caller. The reply is
//! always a syntactically valid JSON array: the helper's trimmed output
//! when it succeeded and printed one, the literal empty array otherwise.

use crate::json;
use crate::text;
use vstd::prelude::*;

verus! {

/// How one invocation of the external calendar helper went, as the shell
/// observed it.
pub enum FetchOutcome {
    /// The helper script could not be written to the temporary file.
    ScriptWriteFailed,
    /// The external interpreter could not be launched.
    LaunchFailed,
    /// The helper ran to completion, with its exit status and its captured
    /// standard output.
    Completed { success: bool, stdout: Vec<u8> },
}

/// The fall-back reply: the literal empty JSON array.
pub open spec fn empty_array_text() -> Seq<char> {
    seq!['[', ']']
}

/// The fetcher's reply for one outcome: the helper's output, decoded as
/// UTF-8 and trimmed of surrounding white space, when the helper succeeded
/// and printed a valid JSON array; the empty array otherwise.
pub open spec fn fetch_response(o: FetchOutcome) -> Seq<char> {
    match o {
        FetchOutcome::Completed { success, stdout } => if success && vstd::utf8::valid_utf8(
            stdout@,
        ) {
            let t = text::trim_seq(vstd::utf8::decode_utf8(stdout@));
            if json::is_json_array(t) {
                t
            } else {
                empty_array_text()
            }
        } else {
            empty_array_text()
        },
        _ => empty_array_text(),
    }
}

/// Relies on `String::from_utf8`: the bytes decode exactly when they are
/// valid UTF-8, to the character sequence that vstd's UTF-8 model gives
/// them.
#[verifier::external_body]
fn decode_utf8_bytes(bytes: Vec<u8>) -> (r: Option<String>)
    ensures
        r is Some <==> vstd::utf8::valid_utf8(bytes@),
        r is Some ==> r->0@ == vstd::utf8::decode_utf8(bytes@),
{
    match String::from_utf8(bytes) {
        Ok(s) => Some(s),
        Err(_) => None,
    }
}

/// The literal empty JSON array, as a string.
pub fn empty_array_string() -> (r: String)
    ensures
        r@ == empty_array_text(),
{
    let r = String::from_str("[]");
    proof {
        reveal_strlit("[]");
        assert(r@ =~= empty_array_text());
    }
    r
}

/// The fetcher's reply for one outcome of the external calendar helper.
pub fn fetch_result(outcome: FetchOutcome) -> (r: String)
    ensures
        r@ == fetch_response(outcome),
        json::is_json_array(r@),
{
    proof {
        json::lemma_empty_array_is_json_array();
    }
    match outcome {
        FetchOutcome::Completed { success, stdout } => {
            if success {
                match decode_utf8_bytes(stdout) {
                    Some(s) => {
                        let t = text::trim_str(s.as_str());
                        if json::is_valid_json_array(t) {
                            String::from_str(t)
                        } else {
                            empty_array_string()
                        }
                    },
                    None => empty_array_string(),
                }
            } else {
                empty_array_string()
            }
        },
        FetchOutcome::ScriptWriteFailed => empty_array_string(),
        FetchOutcome::LaunchFailed => empty_array_string(),
    }
}

/// Whatever the outcome of the helper, the fetcher's reply is a
/// syntactically valid JSON array.
pub proof fn lemma_fetch_response_is_json_array(o: FetchOutcome)
    ensures
        json::is_json_array(fetch_response(o)),
{
    json::lemma_empty_array_is_json_array();
}

/// A helper run that did not complete successfully — the script could not
/// be written, the interpreter could not be launched, or the process exited
/// with a failure status — yields exactly the empty array.
pub proof fn lemma_failed_fetch_yields_empty_array(o: FetchOutcome)
    requires
        !(o matches FetchOutcome::Completed { success, .. } && success),
    ensures
        fetch_response(o) == empty_array_text(),
{
}

/// A successful helper run whose output is valid UTF-8 and, once trimmed, a
/// valid JSON array yields exactly that trimmed text.
pub proof fn lemma_successful_fetch_is_trimmed_output(success: bool, stdout: Vec<u8>)
    requires
        success,
        vstd::utf8::valid_utf8(stdout@),
        json::is_json_array(text::trim_seq(vstd::utf8::decode_utf8(stdout@))),
    ensures
        fetch_response(FetchOutcome::Completed { success, stdout }) == text::trim_seq(
            vstd::utf8::decode_utf8(stdout@),
        ),
{
}

} // verus!
