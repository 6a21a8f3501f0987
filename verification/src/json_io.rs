//! Reading and writing JSON text.

use crate::error::Error;
use crate::json::JsonValue;
use crate::json_text::{parse_value, parsed, value_to_json};
use vstd::prelude::*;

verus! {

impl JsonValue {
    /// Reads a JSON document. The value that is read is well formed; a text
    /// that is no JSON is an error.
    pub fn parse(text: &str) -> (r: Result<JsonValue, Error>)
        ensures
            match parsed(text@) {
                Some(json) => r is Ok && r.unwrap()@ == json && json.wf(),
                None => r is Err && r.unwrap_err()@ is Parse,
            },
    {
        match parse_value(text) {
            Ok(value) => Ok(value_to_json(&value)),
            Err(message) => Err(Error::Parse(message)),
        }
    }
}

} // verus!
