//! The JSON documents of the mailbox, read and written through `serde_json`.
//!
//! What `serde_json` makes of a text is not restated here: each result of the
//! parser and of the pretty printer is named by a spec function without a
//! body, and the protocol's contracts are stated over those names.

use vstd::prelude::*;

verus! {

/// A member value of a flat JSON object written to the mailbox.
pub enum JsonField {
    Text(String),
    Flag(bool),
    TextList(Vec<String>),
}

/// The mathematical value of a [`JsonField`].
pub enum JsonFieldView {
    Text(Seq<char>),
    Flag(bool),
    TextList(Seq<Seq<char>>),
}

impl View for JsonField {
    type V = JsonFieldView;

    open spec fn view(&self) -> JsonFieldView {
        match self {
            JsonField::Text(s) => JsonFieldView::Text(s@),
            JsonField::Flag(b) => JsonFieldView::Flag(*b),
            JsonField::TextList(items) => JsonFieldView::TextList(items.deep_view()),
        }
    }
}

/// The string that `serde_json` finds under `key` when `text` is parsed as a
/// JSON object; `None` when the text is no JSON, is no object, or has no
/// string member of that name.
pub uninterp spec fn json_string_member(text: Seq<char>, key: Seq<char>) -> Option<Seq<char>>;

/// The boolean that `serde_json` finds under `key` when `text` is parsed as a
/// JSON object, in the same way as [`json_string_member`].
pub uninterp spec fn json_bool_member(text: Seq<char>, key: Seq<char>) -> Option<bool>;

/// The pretty-printed text of the JSON object with the given members.
pub uninterp spec fn pretty_object(members: Seq<(Seq<char>, JsonFieldView)>) -> Seq<char>;

/// The members of a list of key/field pairs, as values.
pub open spec fn members_view(members: Seq<(String, JsonField)>) -> Seq<(Seq<char>, JsonFieldView)> {
    members.map_values(|m: (String, JsonField)| (m.0@, m.1@))
}

/// Relies on `serde_json::from_str` into a `serde_json::Value`, then
/// `Value::get` and `Value::as_str`: reads one string member of an object.
#[verifier::external_body]
pub(crate) fn string_member(text: &str, key: &str) -> (r: Option<String>)
    ensures
        r.deep_view() == json_string_member(text@, key@),
{
    let value: serde_json::Value = match serde_json::from_str(text) {
        Ok(v) => v,
        Err(_) => return None,
    };
    match value.get(key) {
        Some(member) => member.as_str().map(|s| s.to_string()),
        None => None,
    }
}

/// Relies on `serde_json::from_str` into a `serde_json::Value`, then
/// `Value::get` and `Value::as_bool`: reads one boolean member of an object.
#[verifier::external_body]
pub(crate) fn bool_member(text: &str, key: &str) -> (r: Option<bool>)
    ensures
        r == json_bool_member(text@, key@),
{
    let value: serde_json::Value = match serde_json::from_str(text) {
        Ok(v) => v,
        Err(_) => return None,
    };
    match value.get(key) {
        Some(member) => member.as_bool(),
        None => None,
    }
}

/// Relies on `serde_json::to_string_pretty` on a `serde_json::Value::Object`
/// built member by member. It cannot fail here: `Value`'s `Serialize` impl has
/// no failing branch, every map key is a string, and the writer is a `Vec`.
#[verifier::external_body]
pub(crate) fn pretty_json(members: &Vec<(String, JsonField)>) -> (r: Result<String, String>)
    ensures
        r is Ok,
        r is Ok ==> r->Ok_0@ == pretty_object(members_view(members@)),
{
    let mut map = serde_json::Map::new();
    for (key, field) in members.iter() {
        let value = match field {
            JsonField::Text(s) => serde_json::Value::String(s.clone()),
            JsonField::Flag(b) => serde_json::Value::Bool(*b),
            JsonField::TextList(items) => serde_json::Value::Array(
                items.iter().map(|s| serde_json::Value::String(s.clone())).collect(),
            ),
        };
        map.insert(key.clone(), value);
    }
    serde_json::to_string_pretty(&serde_json::Value::Object(map)).map_err(|e| e.to_string())
}

} // verus!
