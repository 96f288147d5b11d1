//! The boot payload: the structured text handed over by the injecting
//! process, and its shape rules.

use vstd::prelude::*;

verus! {

use crate::error::Error;

/// The decoded boot payload. Both fields are required.
#[derive(Debug)]
pub struct Param {
    /// Directory holding the entry assembly and its runtime configuration.
    pub dalamud_root: String,
    /// Directory holding the configuration profiles.
    pub profile_root: String,
}

/// The string value of a top-level field of the payload text read as a JSON
/// object, if the text is such an object and the field is a string.
pub uninterp spec fn payload_field(text: Seq<char>, key: Seq<char>) -> Option<Seq<char>>;

/// Relies on `serde_json::from_str::<Value>`, `Value::get` and `Value::as_str`:
/// whether the field is present and what it holds depend on the text and the
/// key alone.
#[verifier::external_body]
fn payload_string_field(text: &str, key: &str) -> (r: Option<String>)
    ensures
        (r is Some) == (payload_field(text@, key@) is Some),
        r matches Some(s) ==> payload_field(text@, key@) == Some(s@),
{
    let value: serde_json::Value = serde_json::from_str(text).ok()?;
    let field = value.get(key)?;
    Some(field.as_str()?.to_owned())
}

impl Param {
    /// Shape rule of the payload: a payload is valid only when both fields
    /// are present. A missing field is rejected before any native call is
    /// ever attempted.
    pub fn from_fields(dalamud_root: Option<String>, profile_root: Option<String>) -> (r: Result<
        Param,
        Error,
    >)
        ensures
            (r is Ok) == (dalamud_root is Some && profile_root is Some),
            r matches Ok(p) ==> Some(p.dalamud_root) == dalamud_root && Some(p.profile_root)
                == profile_root,
            r matches Err(e) ==> e == Error::InvalidBootPayload,
    {
        match (dalamud_root, profile_root) {
            (Some(d), Some(p)) => Ok(Param { dalamud_root: d, profile_root: p }),
            _ => Err(Error::InvalidBootPayload),
        }
    }

    /// Decode and shape-check the payload text: it must be a JSON object with
    /// the two required string fields.
    pub fn decode(text: &str) -> (r: Result<Param, Error>)
        ensures
            (r is Ok) == (payload_field(text@, "dalamud_root"@) is Some && payload_field(
                text@,
                "profile_root"@,
            ) is Some),
            r matches Ok(p) ==> payload_field(text@, "dalamud_root"@) == Some(p.dalamud_root@)
                && payload_field(text@, "profile_root"@) == Some(p.profile_root@),
            r matches Err(e) ==> e == Error::InvalidBootPayload,
    {
        let dalamud_root = payload_string_field(text, "dalamud_root");
        let profile_root = payload_string_field(text, "profile_root");
        Param::from_fields(dalamud_root, profile_root)
    }
}

} // verus!
