//! Reading what the completion service sent back.

use serde_json::Value;
use vstd::prelude::*;
use vstd::string::*;

use crate::error::ErrorKind;
use crate::text::{opt_str, opt_text, trim, trimmed};

verus! {

/// The error of `serde_json`, carried through and never looked into.
#[verifier::external_type_specification]
#[verifier::external_body]
pub struct ExJsonError(serde_json::Error);

/// What `serde_json::from_slice` finds in a reply at `choices[0].message.content`:
/// `None` where the reply is no JSON, `Some(None)` where it is JSON with no
/// string at that place, and the string otherwise.
pub uninterp spec fn completion_content(body: Seq<u8>) -> Option<Option<Seq<char>>>;

/// `serde_json::from_slice` into a `serde_json::Value`, and from the value the
/// string at `choices[0].message.content`, by `Index` and `Value::as_str`. The
/// contract gives the outcome a name and says no more of it.
#[verifier::external_body]
fn json_content(body: &[u8]) -> (outcome: Result<Option<String>, serde_json::Error>)
    ensures
        match outcome {
            Ok(content) => completion_content(body@) == Some(opt_text(content)),
            Err(_) => completion_content(body@) is None,
        },
{
    let reply: Value = serde_json::from_slice(body)?;
    Ok(reply["choices"][0]["message"]["content"].as_str().map(String::from))
}

/// The answer that is stored for what the completion service said: its text
/// without the white space around it, or a fixed text where it said nothing.
pub open spec fn answer_text(content: Option<Seq<char>>) -> Seq<char> {
    match content {
        Some(text) => trimmed(text),
        None => trimmed("No answer received"@),
    }
}

/// The answer to store for the content of a reply.
pub fn answer(content: Option<&str>) -> (answer: String)
    ensures
        answer@ == answer_text(opt_str(content)),
{
    match content {
        Some(text) => String::from_str(trim(text)),
        None => String::from_str(trim("No answer received")),
    }
}

/// Reads the answer out of a reply of the completion service. A reply that
/// is no JSON is refused; one that is JSON always yields an answer.
pub fn read_completion(body: &[u8]) -> (outcome: Result<String, ErrorKind>)
    ensures
        match completion_content(body@) {
            Some(content) => outcome matches Ok(text) && text@ == answer_text(content),
            None => outcome matches Err(kind) && kind == ErrorKind::InvalidCompletion,
        },
{
    match json_content(body) {
        Ok(Some(text)) => Ok(answer(Some(text.as_str()))),
        Ok(None) => Ok(answer(None)),
        Err(_) => Err(ErrorKind::InvalidCompletion),
    }
}

} // verus!
