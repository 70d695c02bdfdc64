use vstd::prelude::*;

use crate::wire::opt_chars;
use crate::Error;

verus! {

/// Whether a status code is in the success range.
pub open spec fn is_success(status: u16) -> bool {
    200 <= status < 300
}

/// The string member `key` of the JSON object `body`, as serde_json reads it; `None` when
/// `body` is not a JSON object or has no such string member.
pub uninterp spec fn json_string_member(body: Seq<char>, key: Seq<char>) -> Option<Seq<char>>;

/// Relies on `serde_json::from_str` into a `serde_json::Value`, then `Value::get` and
/// `Value::as_str`: reads `body` as JSON and takes its member `key` when that is a string.
#[verifier::external_body]
fn string_member(body: &str, key: &str) -> (r: Option<String>)
    ensures
        opt_chars(r) == json_string_member(body@, key@),
{
    let value: serde_json::Value = serde_json::from_str(body).ok()?;
    value.get(key)?.as_str().map(|s| s.to_string())
}

/// The outcome that a response with `status` is owed, given the message of its
/// structured error body (if it has one).
pub open spec fn classified(status: u16, message: Option<Seq<char>>, r: Result<(), Error>) -> bool {
    if is_success(status) {
        r is Ok
    } else {
        match message {
            Some(m) => r matches Err(Error::Server(c, t)) && c == status && t@ == m,
            None => r matches Err(Error::InvalidResponse),
        }
    }
}

/// Classifies a response from its status and the message found in its error body: success,
/// a server-reported error with status and message, or an invalid response when a failure
/// carries no structured message.
pub fn classify_message(status: u16, message: Option<String>) -> (r: Result<(), Error>)
    ensures
        classified(status, opt_chars(message), r),
{
    if 200 <= status && status < 300 {
        Ok(())
    } else {
        match message {
            Some(m) => Err(Error::Server(status, m)),
            None => Err(Error::InvalidResponse),
        }
    }
}

/// Classifies a response from its status and raw body. On a failure status the body is read
/// as a structured error `{"message": ...}`; a body that is not one gives
/// [`Error::InvalidResponse`].
pub fn classify(status: u16, body: &str) -> (r: Result<(), Error>)
    ensures
        classified(status, json_string_member(body@, "message"@), r),
{
    if 200 <= status && status < 300 {
        Ok(())
    } else {
        classify_message(status, string_member(body, "message"))
    }
}

} // verus!
