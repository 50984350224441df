//! CBOR encoding of JSON documents, done by `ciborium`.

use vstd::prelude::*;

use crate::json::Json;

verus! {

/// Declares `serde_json::Value` to Verus as an opaque type.
#[verifier::external_type_specification]
#[verifier::external_body]
pub struct ExJsonValue(serde_json::Value);

/// What encoding the array of these JSON documents gives: the bytes that
/// `ciborium::into_writer` writes for them (each turned into a
/// `serde_json::Value`), or the text of the error met on the way.
pub uninterp spec fn spec_cbor_json_array(items: Seq<Json>) -> Result<Seq<u8>, Seq<char>>;

/// An encoding outcome seen through the views of its bytes or error text.
pub open spec fn spec_outcome(r: Result<Vec<u8>, String>) -> Result<Seq<u8>, Seq<char>> {
    match r {
        Ok(b) => Ok(b@),
        Err(m) => Err(m@),
    }
}

/// Turns a document into the `serde_json::Value` it stands for, member by
/// member; `None` where a number's text is not one that `serde_json::Number`
/// parses. This is the argument conversion of `cbor_encode_json_array`, kept
/// apart because it is recursive. Nothing is stated of it: `serde_json::Value`
/// is opaque here.
#[verifier::external_body]
fn json_value(j: &Json) -> Option<serde_json::Value> {
    Some(match j {
        Json::Null => serde_json::Value::Null,
        Json::Bool(b) => serde_json::Value::Bool(*b),
        Json::Number(t) => serde_json::Value::Number(t.parse().ok()?),
        Json::Str(s) => serde_json::Value::String(s.clone()),
        Json::Array(a) => serde_json::Value::Array(a.iter().map(json_value).collect::<Option<_>>()?),
        Json::Object(f) => serde_json::Value::Object(
            f.iter().map(|(k, v)| Some((k.clone(), json_value(v)?))).collect::<Option<_>>()?,
        ),
    })
}

/// Calls `ciborium::into_writer` on the documents as a `Vec<serde_json::Value>`,
/// writing into a fresh `Vec<u8>`. Trusted: the outcome, bytes or the error's
/// text, is a function of the documents alone, named `spec_cbor_json_array`
/// (the writer is a `Vec<u8>`, and `serde_json::Map` is ordered by key). Not
/// stated: on which documents it fails (a number text that `serde_json`
/// rejects, or an error of the encoder).
#[verifier::external_body]
pub(crate) fn cbor_encode_json_array(items: &Vec<Json>) -> (r: Result<Vec<u8>, String>)
    ensures
        spec_outcome(r) == spec_cbor_json_array(items@),
{
    let values: Vec<serde_json::Value> = items.iter().map(json_value).collect::<Option<_>>()
        .ok_or_else(|| "a number's text is not valid JSON".to_string())?;
    let mut buf = Vec::new();
    ciborium::into_writer(&values, &mut buf).map_err(|e| e.to_string())?;
    Ok(buf)
}

} // verus!
