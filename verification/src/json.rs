//! The JSON that the client writes and reads, through `serde_json`.
use vstd::prelude::*;
use vstd::utf8::*;

verus! {

/// `serde_json::Value`, carried through unopened (the content of events).
#[verifier::external_type_specification]
#[verifier::external_body]
pub struct ExJsonValue(serde_json::Value);

/// `Clone` of `serde_json::Value` (derived there), so that values holding
/// one can be cloned; nothing is stated of the copy.
pub assume_specification[ <serde_json::Value as std::clone::Clone>::clone ](v: &serde_json::Value) -> serde_json::Value;

/// The text that `serde_json` writes for a JSON object whose members are
/// the given (name, string value) pairs.
pub uninterp spec fn json_object_text(fields: Seq<(Seq<char>, Seq<char>)>) -> Seq<char>;

/// What `serde_json::from_slice::<Value>` makes of `bytes`, read at the
/// top-level member `key`: `None` when the bytes are not JSON,
/// `Some(Some(s))` when the document is an object whose member `key` is
/// the string `s`, and `Some(None)` otherwise.
pub uninterp spec fn json_member_text(bytes: Seq<u8>, key: Seq<char>) -> Option<Option<Seq<char>>>;

/// The names of the members of the JSON object that
/// `serde_json::from_slice::<Value>` makes of `bytes`: `None` when the
/// bytes are not a JSON object.
pub uninterp spec fn json_member_names(bytes: Seq<u8>) -> Option<Set<Seq<char>>>;

/// The names among a sequence of (name, value) pairs.
pub open spec fn field_names(fields: Seq<(Seq<char>, Seq<char>)>) -> Set<Seq<char>> {
    Set::new(|k: Seq<char>| exists|i: int| 0 <= i < fields.len() && #[trigger] fields[i].0 == k)
}

/// The views of a sequence of string pairs.
pub open spec fn pairs_view(fields: Seq<(String, String)>) -> Seq<(Seq<char>, Seq<char>)> {
    fields.map_values(|p: (String, String)| (p.0@, p.1@))
}

/// No two pairs have the same name.
pub open spec fn names_distinct(fields: Seq<(Seq<char>, Seq<char>)>) -> bool {
    forall|i: int, j: int|
        0 <= i < fields.len() && 0 <= j < fields.len() && i != j ==> #[trigger] fields[i].0
            != #[trigger] fields[j].0
}

/// `serde_json::Value::Object` of the pairs, each value a JSON string,
/// written out with `to_string`. Its text is named `json_object_text`.
/// Reading that text back with `serde_json::from_slice` gives an object
/// whose members are exactly the given names, holding each string under
/// its name, as serde_json's round trip of strings promises (the values
/// are stated where the names are distinct).
#[verifier::external_body]
pub(crate) fn json_string_object(fields: Vec<(String, String)>) -> (text: String)
    ensures
        text@ == json_object_text(pairs_view(fields@)),
        json_member_names(encode_utf8(text@)) == Some(field_names(pairs_view(fields@))),
        names_distinct(pairs_view(fields@)) ==> forall|i: int|
            0 <= i < fields@.len() ==> json_member_text(encode_utf8(text@), #[trigger] fields@[i].0@)
                == Some(Some(fields@[i].1@)),
        names_distinct(pairs_view(fields@)) ==> forall|k: Seq<char>|
            (forall|i: int| 0 <= i < fields@.len() ==> #[trigger] fields@[i].0@ != k)
                ==> #[trigger] json_member_text(encode_utf8(text@), k) == Some(None::<Seq<char>>),
{
    let map: serde_json::Map<String, serde_json::Value> = fields.into_iter().map(
        |(k, v)| (k, serde_json::Value::String(v)),
    ).collect();
    serde_json::Value::Object(map).to_string()
}

/// `serde_json::from_slice::<Value>` of `bytes`, then the string at the
/// top-level member `key` (`Value::get` and `Value::as_str`). Whether it
/// parses and what it finds are named by `json_member_text`; the error
/// value itself is not described.
#[verifier::external_body]
pub(crate) fn json_member_str(bytes: &[u8], key: &str) -> (res: Result<Option<String>, serde_json::Error>)
    ensures
        res is Ok <==> json_member_text(bytes@, key@) is Some,
        res matches Ok(o) ==> Some(crate::text::opt_view(o)) == json_member_text(bytes@, key@),
{
    let value: serde_json::Value = serde_json::from_slice(bytes)?;
    Ok(value.get(key).and_then(|v| v.as_str()).map(|s| s.to_owned()))
}

} // verus!
