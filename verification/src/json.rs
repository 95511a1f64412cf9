//! The few JSON operations the library needs, all made by `serde_json`:
//! writing an object of string members (channel settings, notification
//! bodies), reading a string member back, and telling whether a text parses.

use vstd::prelude::*;

use crate::db::monitors::opt_view;

verus! {

/// Whether `c` may stand in a member name that needs no escaping: a lower
/// case ASCII letter or `_`.
pub open spec fn is_plain_key_char(c: char) -> bool {
    ('a' <= c && c <= 'z') || c == '_'
}

/// Whether `keys` are distinct, non-empty member names that need no escaping.
pub open spec fn plain_keys(keys: Seq<Seq<char>>) -> bool {
    &&& forall|i: int| 0 <= i < keys.len() ==> #[trigger] keys[i].len() > 0
    &&& forall|i: int, j: int|
        0 <= i < keys.len() && 0 <= j < keys[i].len() ==> is_plain_key_char(#[trigger] keys[i][j])
    &&& forall|i: int, j: int| 0 <= i < j < keys.len() ==> #[trigger] keys[i] != #[trigger] keys[j]
}

/// The text that `serde_json` writes for the JSON object whose member
/// `keys[i]` holds the string `values[i]`, or `null` where that is `None`.
pub uninterp spec fn json_object_text(keys: Seq<Seq<char>>, values: Seq<Option<Seq<char>>>) -> Seq<char>;

/// The text of the error that `serde_json::from_str` reports when `text` is
/// not a JSON document, or `None` when it is one.
pub uninterp spec fn json_parse_error(text: Seq<char>) -> Option<Seq<char>>;

/// The string stored under `key` in the JSON object `text`, or `None` when
/// `text` is no JSON document, is not an object, has no such key, or holds
/// something other than a string there.
pub uninterp spec fn json_field(text: Seq<char>, key: Seq<char>) -> Option<Seq<char>>;

/// The member names of `members`.
pub open spec fn member_keys(members: Seq<(String, Option<String>)>) -> Seq<Seq<char>> {
    members.map_values(|m: (String, Option<String>)| m.0@)
}

/// The member values of `members`.
pub open spec fn member_values(members: Seq<(String, Option<String>)>) -> Seq<Option<Seq<char>>> {
    members.map_values(|m: (String, Option<String>)| opt_view(m.1))
}

/// Builds a `serde_json::Value::Object` with a member for each pair (a
/// `Value::String`, or `Value::Null` for `None`) and writes it with
/// `to_string`. Claimed: the text is a function of the members alone, named
/// `json_object_text`.
#[verifier::external_body]
pub(crate) fn json_object(members: Vec<(String, Option<String>)>) -> (r: String)
    ensures
        r@ == json_object_text(member_keys(members@), member_values(members@)),
{
    let map: serde_json::Map<String, serde_json::Value> = members
        .into_iter()
        .map(|(key, value)| (key, value.map_or(serde_json::Value::Null, serde_json::Value::String)))
        .collect();
    serde_json::Value::Object(map).to_string()
}

/// Calls `serde_json::from_str::<serde_json::Value>` on `text` and, when it
/// fails, displays the error with `to_string`. Claimed: the result is a
/// function of `text` alone, named `json_parse_error`; and an object that
/// `serde_json` wrote from distinct plain member names parses without error.
#[verifier::external_body]
pub(crate) fn json_error(text: &str) -> (r: Option<String>)
    ensures
        match r {
            Some(e) => json_parse_error(text@) == Some(e@),
            None => json_parse_error(text@) is None,
        },
        forall|keys: Seq<Seq<char>>, values: Seq<Option<Seq<char>>>|
            plain_keys(keys) && keys.len() == values.len() && text@ == #[trigger] json_object_text(
                keys,
                values,
            ) ==> r is None,
{
    serde_json::from_str::<serde_json::Value>(text).err().map(|e| e.to_string())
}

/// Calls `serde_json::from_str::<serde_json::Value>` on `text`, then
/// `Value::get(key)` and `Value::as_str` on what it parsed. Claimed: the
/// result is a function of `text` and `key` alone, named `json_field`; and
/// reading a member of an object that `serde_json` wrote from distinct plain
/// member names gives back the string written there (nothing for `null`).
#[verifier::external_body]
pub(crate) fn json_str_field(text: &str, key: &str) -> (r: Option<String>)
    ensures
        match r {
            Some(v) => json_field(text@, key@) == Some(v@),
            None => json_field(text@, key@) is None,
        },
        forall|keys: Seq<Seq<char>>, values: Seq<Option<Seq<char>>>|
            plain_keys(keys) && keys.len() == values.len() && text@ == #[trigger] json_object_text(
                keys,
                values,
            ) ==> forall|i: int|
                0 <= i < keys.len() && #[trigger] keys[i] == key@ ==> opt_view(r) == values[i],
{
    serde_json::from_str::<serde_json::Value>(text)
        .ok()
        .and_then(|value| value.get(key).and_then(|field| field.as_str()).map(|s| s.to_string()))
}

/// The object `{"<k1>": v1}` as `serde_json` writes it.
pub(crate) fn json_object1(k1: &str, v1: Option<String>) -> (r: String)
    ensures
        r@ == json_object_text(seq![k1@], seq![opt_view(v1)]),
{
    let ghost v1v = opt_view(v1);
    let mut members: Vec<(String, Option<String>)> = Vec::new();
    members.push((k1.to_owned(), v1));
    assert(member_keys(members@) =~= seq![k1@]);
    assert(member_values(members@) =~= seq![v1v]);
    json_object(members)
}

/// The object `{"<k1>": v1, "<k2>": v2}` as `serde_json` writes it.
pub(crate) fn json_object2(k1: &str, v1: Option<String>, k2: &str, v2: Option<String>) -> (r: String)
    ensures
        r@ == json_object_text(seq![k1@, k2@], seq![opt_view(v1), opt_view(v2)]),
{
    let ghost v1v = opt_view(v1);
    let ghost v2v = opt_view(v2);
    let mut members: Vec<(String, Option<String>)> = Vec::new();
    members.push((k1.to_owned(), v1));
    members.push((k2.to_owned(), v2));
    assert(member_keys(members@) =~= seq![k1@, k2@]);
    assert(member_values(members@) =~= seq![v1v, v2v]);
    json_object(members)
}

/// The object `{"<k1>": v1, "<k2>": v2, "<k3>": v3}` as `serde_json` writes it.
pub(crate) fn json_object3(
    k1: &str,
    v1: Option<String>,
    k2: &str,
    v2: Option<String>,
    k3: &str,
    v3: Option<String>,
) -> (r: String)
    ensures
        r@ == json_object_text(seq![k1@, k2@, k3@], seq![opt_view(v1), opt_view(v2), opt_view(v3)]),
{
    let ghost v1v = opt_view(v1);
    let ghost v2v = opt_view(v2);
    let ghost v3v = opt_view(v3);
    let mut members: Vec<(String, Option<String>)> = Vec::new();
    members.push((k1.to_owned(), v1));
    members.push((k2.to_owned(), v2));
    members.push((k3.to_owned(), v3));
    assert(member_keys(members@) =~= seq![k1@, k2@, k3@]);
    assert(member_values(members@) =~= seq![v1v, v2v, v3v]);
    json_object(members)
}

} // verus!
