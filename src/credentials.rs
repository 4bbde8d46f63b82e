//! Stored credentials: one pretty JSON file per credential, named by its id.

use vstd::prelude::*;
use vstd::string::*;
use crate::json::{
    json_string_member, members_view, pretty_json, pretty_object, string_member, JsonField,
    JsonFieldView,
};
use crate::sanitize::path_extension_of;

verus! {

/// A named secret that the user stored for a service.
#[derive(Debug, Clone)]
pub struct Credential {
    pub id: String,
    pub name: String,
    pub value: String,
    pub credential_type: String,
}

/// The members of a credential's file.
pub open spec fn credential_members(c: Credential) -> Seq<(Seq<char>, JsonFieldView)> {
    seq![
        ("id"@, JsonFieldView::Text(c.id@)),
        ("name"@, JsonFieldView::Text(c.name@)),
        ("value"@, JsonFieldView::Text(c.value@)),
        ("credential_type"@, JsonFieldView::Text(c.credential_type@)),
    ]
}

/// The four text members of a credential's file, when all are there.
pub open spec fn credential_of_json(text: Seq<char>) -> Option<(Seq<char>, Seq<char>, Seq<char>, Seq<char>)> {
    let id = json_string_member(text, "id"@);
    let name = json_string_member(text, "name"@);
    let value = json_string_member(text, "value"@);
    let kind = json_string_member(text, "credential_type"@);
    if id is Some && name is Some && value is Some && kind is Some {
        Some((id->Some_0, name->Some_0, value->Some_0, kind->Some_0))
    } else {
        None
    }
}

/// The name of the file that holds the credential `id`.
pub open spec fn credential_file(id: Seq<char>) -> Seq<char> {
    id + ".json"@
}

impl Credential {
    /// The pretty JSON text of this credential's file.
    pub fn to_document(&self) -> (r: Result<String, String>)
        ensures
            r is Ok,
            r is Ok ==> r->Ok_0@ == pretty_object(credential_members(*self)),
    {
        let members = vec![
            (String::from_str("id"), JsonField::Text(self.id.clone())),
            (String::from_str("name"), JsonField::Text(self.name.clone())),
            (String::from_str("value"), JsonField::Text(self.value.clone())),
            (String::from_str("credential_type"), JsonField::Text(self.credential_type.clone())),
        ];
        proof {
            assert(members_view(members@) =~= credential_members(*self));
        }
        pretty_json(&members)
    }

    /// Reads a credential from the text of its file; `None` when the text is
    /// no JSON object with the four text members.
    pub fn parse(text: &str) -> (r: Option<Credential>)
        ensures
            match r {
                Some(c) => credential_of_json(text@) == Some(
                    (c.id@, c.name@, c.value@, c.credential_type@),
                ),
                None => credential_of_json(text@) is None,
            },
    {
        let id = string_member(text, "id");
        let name = string_member(text, "name");
        let value = string_member(text, "value");
        let credential_type = string_member(text, "credential_type");
        match (id, name, value, credential_type) {
            (Some(id), Some(name), Some(value), Some(credential_type)) => Some(
                Credential { id, name, value, credential_type },
            ),
            _ => None,
        }
    }

    /// The name of the file that holds this credential.
    pub fn file_name(&self) -> (r: String)
        ensures
            r@ == credential_file(self.id@),
    {
        credential_file_name(self.id.as_str())
    }
}

/// The name of the file that holds the credential `id`.
pub fn credential_file_name(id: &str) -> (r: String)
    ensures
        r@ == credential_file(id@),
{
    let mut r = String::from_str(id);
    r.append(".json");
    r
}

/// Whether a directory entry named `name` is a credential file: its
/// extension is `json`.
pub fn is_credential_file(name: &str) -> (r: bool)
    ensures
        r == (path_extension_of(name@) == "json"@),
{
    let ext = crate::sanitize::extension_of(name);
    let json = String::from_str("json");
    ext == json
}

} // verus!
