//! The JSON text of single values: strings, which `serde_json` encodes, and
//! booleans.

use vstd::prelude::*;

verus! {

/// The error of `serde_json`, which the library only carries.
#[verifier::external_type_specification]
#[verifier::external_body]
pub struct ExJsonError(serde_json::Error);

/// What `serde_json::to_string` puts between the two quotes when it is given
/// a string: the string's characters with its escapes applied. `None` where
/// it reports an error.
pub uninterp spec fn json_escaped(s: Seq<char>) -> Option<Seq<char>>;

/// Whether a string has a JSON text.
pub open spec fn string_ok(s: Seq<char>) -> bool {
    json_escaped(s) is Some
}

/// The JSON text of a string that has one: a quote, the escaped characters,
/// a quote.
pub open spec fn string_text(s: Seq<char>) -> Seq<char>
    recommends
        string_ok(s),
{
    "\""@ + json_escaped(s).unwrap() + "\""@
}

/// The JSON text of a boolean.
pub open spec fn bool_text(b: bool) -> Seq<char> {
    if b {
        "true"@
    } else {
        "false"@
    }
}

/// The only failure of this library: the encoder refused a value.
#[derive(Debug)]
pub struct SerializationError {
    /// What the encoder reported.
    pub cause: serde_json::Error,
}

impl SerializationError {
    /// What went wrong, in words.
    pub fn message(&self) -> (r: &'static str)
        ensures
            r@ == "could not serialize AlfredItems"@,
    {
        "could not serialize AlfredItems"
    }
}

/// Calls `serde_json::to_string` on a string slice. Trusted: the outcome
/// depends on the characters of `s` alone; where it is a text, the text
/// begins and ends with a quote, and `json_escaped` is the name of what stands
/// between the two. Nothing is claimed of the escapes, nor that the call
/// succeeds.
#[verifier::external_body]
pub(crate) fn encode_str(s: &str) -> (r: Result<String, serde_json::Error>)
    ensures
        match r {
            Ok(t) => json_escaped(s@) is Some && t@ == "\""@ + json_escaped(s@).unwrap() + "\""@,
            Err(_) => json_escaped(s@) is None,
        },
{
    serde_json::to_string(s)
}

/// The JSON text of a string, or the encoder's error.
pub fn encode_string(s: &str) -> (r: Result<String, SerializationError>)
    ensures
        match r {
            Ok(t) => string_ok(s@) && t@ == string_text(s@),
            Err(_) => !string_ok(s@),
        },
{
    match encode_str(s) {
        Ok(t) => Ok(t),
        Err(e) => Err(SerializationError { cause: e }),
    }
}

/// The JSON text of a boolean.
pub fn encode_bool(b: bool) -> (r: &'static str)
    ensures
        r@ == bool_text(b),
{
    if b {
        "true"
    } else {
        "false"
    }
}

} // verus!
