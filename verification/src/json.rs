use vstd::prelude::*;

verus! {

#[verifier::external_type_specification]
#[verifier::external_body]
pub struct ExJsonValue(serde_json::Value);

/// Whether a byte sequence decodes as a JSON value; decoding depends on the
/// bytes alone.
pub uninterp spec fn json_value_ok(bytes: Seq<u8>) -> bool;

/// The value that well-formed JSON bytes decode to; decoding depends on the
/// bytes alone.
pub uninterp spec fn json_value_of(bytes: Seq<u8>) -> serde_json::Value;

/// Relies on serde_json::from_slice::<Value>: the bytes decode to a value
/// exactly when they are well-formed JSON, and the value depends on the
/// bytes alone. Any decoding failure is absence.
#[verifier::external_body]
pub(crate) fn json_from_bytes(bytes: &Vec<u8>) -> (r: Option<serde_json::Value>)
    ensures
        r.is_some() == json_value_ok(bytes@),
        (r matches Some(v) ==> v == json_value_of(bytes@)),
{
    serde_json::from_slice(bytes).ok()
}

} // verus!
