//! JSON documents as far as the commands read them, parsed by `serde_json`.

use vstd::prelude::*;

verus! {

/// The value of a member of a top-level JSON object, as far as the commands read it.
#[derive(Clone, Debug, PartialEq, Eq)]
pub enum JsonField {
    /// A JSON string.
    Str(String),
    /// A JSON number that `serde_json` holds as a non-negative integer.
    UInt(u64),
    /// Any other value: null, a boolean, a negative or fractional number, an array, an object.
    Other,
}

/// A parsed JSON document, as far as the commands read it.
#[derive(Clone, Debug, PartialEq, Eq)]
pub enum JsonDoc {
    /// A JSON object: its members in `serde_json`'s map order.
    Object(Vec<(String, JsonField)>),
    /// Any document that is not an object.
    NotObject,
}

/// What `serde_json::from_str::<serde_json::Value>` makes of a text: the
/// document, or the text of the parse error.
pub uninterp spec fn serde_json_from_str(text: Seq<char>) -> Result<JsonDoc, Seq<char>>;

/// What `serde_json::from_slice::<serde_json::Value>` makes of bytes: the
/// document, or `None` on a parse error.
pub uninterp spec fn serde_json_from_slice(bytes: Seq<u8>) -> Option<JsonDoc>;

/// No two members of an object share a key.
pub open spec fn keys_distinct(members: Seq<(String, JsonField)>) -> bool {
    forall|i: int, j: int|
        0 <= i < members.len() && 0 <= j < members.len() && i != j ==> #[trigger] members[i].0@
            != #[trigger] members[j].0@
}

/// Calls `serde_json::from_str::<serde_json::Value>` and keeps of the value
/// what `JsonDoc` holds. Trusted: the result is a fixed function of the text
/// (named `serde_json_from_str`), the error is the parse error's `to_string`,
/// and an object has each key once (serde_json's `Map` is a map). What
/// document a given text yields is left unsaid.
#[verifier::external_body]
pub fn parse_json_text(text: &str) -> (r: Result<JsonDoc, String>)
    ensures
        r matches Ok(d) ==> (serde_json_from_str(text@) matches Ok(x) && x == d),
        r matches Err(e) ==> (serde_json_from_str(text@) matches Err(x) && x == e@),
        r matches Ok(JsonDoc::Object(members)) ==> keys_distinct(members@),
{
    match serde_json::from_str::<serde_json::Value>(text) {
        Ok(serde_json::Value::Object(m)) => Ok(JsonDoc::Object(m.into_iter().map(|(k, v)| (k, match v {
            serde_json::Value::String(s) => JsonField::Str(s),
            serde_json::Value::Number(n) => n.as_u64().map_or(JsonField::Other, JsonField::UInt),
            _ => JsonField::Other,
        })).collect())),
        Ok(_) => Ok(JsonDoc::NotObject),
        Err(e) => Err(e.to_string()),
    }
}

/// Calls `serde_json::from_slice::<serde_json::Value>` and keeps of the value
/// what `JsonDoc` holds. Trusted: the result is a fixed function of the
/// bytes (named `serde_json_from_slice`), and an object has each key once.
/// What document given bytes yield is left unsaid.
#[verifier::external_body]
pub fn parse_json_bytes(bytes: &[u8]) -> (r: Option<JsonDoc>)
    ensures
        r == serde_json_from_slice(bytes@),
        r matches Some(JsonDoc::Object(members)) ==> keys_distinct(members@),
{
    match serde_json::from_slice::<serde_json::Value>(bytes) {
        Ok(serde_json::Value::Object(m)) => Some(JsonDoc::Object(m.into_iter().map(|(k, v)| (k, match v {
            serde_json::Value::String(s) => JsonField::Str(s),
            serde_json::Value::Number(n) => n.as_u64().map_or(JsonField::Other, JsonField::UInt),
            _ => JsonField::Other,
        })).collect())),
        Ok(_) => Some(JsonDoc::NotObject),
        Err(_) => None,
    }
}

/// The value of the first member at or after `from` whose key is `key`.
pub open spec fn lookup_from(members: Seq<(String, JsonField)>, key: Seq<char>, from: int) -> Option<JsonField>
    decreases members.len() - from,
{
    if from < 0 || from >= members.len() {
        None
    } else if members[from].0@ == key {
        Some(members[from].1)
    } else {
        lookup_from(members, key, from + 1)
    }
}

/// What `serde_json::Value::get(key)` gives: the member of an object with
/// that key; nothing for a document that is not an object.
pub open spec fn doc_get(doc: JsonDoc, key: Seq<char>) -> Option<JsonField> {
    match doc {
        JsonDoc::Object(members) => lookup_from(members@, key, 0),
        JsonDoc::NotObject => None,
    }
}

/// The member of `doc` whose key is `key`.
pub fn json_get<'a>(doc: &'a JsonDoc, key: &str) -> (r: Option<&'a JsonField>)
    ensures
        r matches Some(f) ==> doc_get(*doc, key@) == Some(*f),
        r is None ==> doc_get(*doc, key@) is None,
{
    match doc {
        JsonDoc::Object(members) => {
            let k = String::from_str(key);
            let mut i: usize = 0;
            while i < members.len()
                invariant
                    i <= members@.len(),
                    k@ == key@,
                    doc_get(*doc, key@) == lookup_from(members@, key@, 0),
                    lookup_from(members@, key@, 0) == lookup_from(members@, key@, i as int),
                decreases members@.len() - i,
            {
                if members[i].0 == k {
                    return Some(&members[i].1);
                }
                i = i + 1;
            }
            None
        },
        JsonDoc::NotObject => None,
    }
}

} // verus!
