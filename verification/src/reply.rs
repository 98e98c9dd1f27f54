//! From the outcome of one removal attempt to the reply that the caller gets.
//!
//! An attempt has two outcomes: the file was removed, or the host system
//! refused and said why. Every cause of failure (no such file, no permission,
//! a directory in the file's place, a fault of the device) is surfaced alike,
//! as the system's own description and nothing else.

use vstd::prelude::*;

verus! {

/// `std::io::Error`, the host system's report of a failed operation. The type
/// is opaque here: nothing is claimed of what a value of it holds.
#[verifier::external_type_specification]
#[verifier::external_body]
pub struct ExIoError(std::io::Error);

/// `text` is what `error` displays as. This is the relation that vstd states
/// between a value and the result of `to_string` on it; for an error of the
/// host system it has no closed form, since the wording is the system's.
pub open spec fn is_description_of(text: String, error: &std::io::Error) -> bool {
    vstd::string::to_string_from_display_ensures::<std::io::Error>(error, text)
}

/// The reply for an attempt given in plain values: `None` where the file was
/// removed, else the description of the failure.
pub open spec fn reply_spec(failure: Option<String>) -> Result<(), String> {
    match failure {
        None => Ok(()),
        Some(description) => Err(description),
    }
}

/// Builds the reply from an attempt whose failure, if any, is already text.
/// The description reaches the caller as it came: not classified, not
/// shortened, not decorated.
pub fn reply_with(failure: Option<String>) -> (reply: Result<(), String>)
    ensures
        reply == reply_spec(failure),
{
    match failure {
        None => Ok(()),
        Some(description) => Err(description),
    }
}

/// The reply to a caller whose removal attempt ended in `outcome`: success
/// exactly where the file was removed, else a failure that carries the
/// system's description of the error as text.
pub fn delete_reply(outcome: Result<(), std::io::Error>) -> (reply: Result<(), String>)
    ensures
        outcome is Ok ==> reply == Ok::<(), String>(()),
        outcome matches Err(error) ==> reply matches Err(text) && is_description_of(text, &error),
{
    match outcome {
        Ok(()) => reply_with(None),
        Err(error) => reply_with(Some(error.to_string())),
    }
}

} // verus!
