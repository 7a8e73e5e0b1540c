use vstd::prelude::*;

verus! {

/// What serde_json reads as the string member `key` of the JSON object
/// written in `doc`: `None` when `doc` is not a JSON object, when it has no
/// member `key`, or when that member is not a string.
pub uninterp spec fn json_string_member(doc: Seq<char>, key: Seq<char>) -> Option<Seq<char>>;

/// The message of serde_json's error on reading `doc` as a JSON object, or
/// `None` when it reads as one.
pub uninterp spec fn json_object_error(doc: Seq<char>) -> Option<Seq<char>>;

/// Whether serde_json reads `doc` as a JSON value.
pub uninterp spec fn json_value_ok(doc: Seq<char>) -> bool;

/// The JSON string literal (quoted and escaped) that serde_json writes for `s`.
pub uninterp spec fn json_quoted(s: Seq<char>) -> Seq<char>;

/// Relies on serde_json::from_str into serde_json::Map, and on Map::remove, to
/// read one string member of a JSON object, unescaped.
#[verifier::external_body]
pub(crate) fn string_member(doc: &str, key: &str) -> (r: Option<String>)
    ensures
        match r {
            Some(v) => json_string_member(doc@, key@) == Some(v@),
            None => json_string_member(doc@, key@) is None,
        },
{
    match serde_json::from_str::<serde_json::Map<String, serde_json::Value>>(doc) {
        Ok(mut m) => match m.remove(key) {
            Some(serde_json::Value::String(s)) => Some(s),
            _ => None,
        },
        Err(_) => None,
    }
}

/// Relies on serde_json::from_str into serde_json::Map, and on the error's
/// Display text, to report why `doc` is not a JSON object.
#[verifier::external_body]
pub(crate) fn object_error(doc: &str) -> (r: Option<String>)
    ensures
        match r {
            Some(e) => json_object_error(doc@) == Some(e@),
            None => json_object_error(doc@) is None,
        },
{
    match serde_json::from_str::<serde_json::Map<String, serde_json::Value>>(doc) {
        Ok(_) => None,
        Err(e) => Some(e.to_string()),
    }
}

/// Relies on serde_json::from_str into serde_json::Value: whether `doc` is
/// JSON text.
#[verifier::external_body]
pub(crate) fn is_json(doc: &str) -> (r: bool)
    ensures
        r == json_value_ok(doc@),
{
    serde_json::from_str::<serde_json::Value>(doc).is_ok()
}

/// Relies on serde_json::to_string on a `str`: the JSON string literal for
/// `s`. Writing a `str` into memory does not fail.
#[verifier::external_body]
pub(crate) fn quote(s: &str) -> (r: String)
    ensures
        r@ == json_quoted(s@),
{
    match serde_json::to_string(s) {
        Ok(q) => q,
        Err(_) => String::new(),
    }
}

} // verus!
