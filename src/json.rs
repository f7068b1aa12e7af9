//! The JSON documents this library sends: request bodies for the two
//! endpoints and the bodies of the two rejection responses. Every string
//! placed in them goes through serde_json's string serialiser, so each is a
//! well-formed JSON document whatever the strings hold.
use vstd::prelude::*;

verus! {

/// The JSON string literal, quotes included, that serde_json writes for `s`.
pub uninterp spec fn json_string_of(s: Seq<char>) -> Seq<char>;

/// No character of `s` needs an escape in a JSON string: no quote, no
/// backslash, no control character below U+0020.
pub open spec fn needs_no_escape(s: Seq<char>) -> bool {
    forall|i: int|
        0 <= i < s.len() ==> s[i] != '"' && s[i] != '\\' && (s[i] as u32) >= 0x20u32
}

/// `s` between double quotes.
pub open spec fn quoted(s: Seq<char>) -> Seq<char> {
    seq!['"'] + s + seq!['"']
}

/// Relies on serde_json::to_string on a `str`: it writes a quote, the escaped
/// characters and a quote into a `Vec`, which cannot fail. Its escape table
/// touches only `"`, `\` and the bytes below 0x20, so a string without them
/// comes back between quotes and unchanged.
#[verifier::external_body]
fn json_string(s: &str) -> (r: Option<String>)
    ensures
        r is Some,
        r matches Some(t) ==> t@ == json_string_of(s@),
        r matches Some(t) ==> (needs_no_escape(s@) ==> t@ == quoted(s@)),
{
    serde_json::to_string(s).ok()
}

/// The JSON string literal for `s`.
fn json_text(s: &str) -> (r: String)
    ensures
        r@ == json_string_of(s@),
        needs_no_escape(s@) ==> r@ == quoted(s@),
{
    json_string(s).unwrap()
}

/// Body of a credential request naming the calling service:
/// `{"serviceId":<service>}`.
pub open spec fn credential_request(service: Seq<char>) -> Seq<char> {
    "{\"serviceId\":"@ + json_string_of(service) + "}"@
}

/// Body of a policy evaluation request with one query:
/// `{"principal":{"id":<principal>},"queries":[{"assetId":<asset>,"action":"call"}]}`.
pub open spec fn evaluation_request(principal: Seq<char>, asset: Seq<char>) -> Seq<char> {
    "{\"principal\":{\"id\":"@ + json_string_of(principal) + "},\"queries\":[{\"assetId\":"@
        + json_string_of(asset) + ",\"action\":\"call\"}]}"@
}

/// Body of a 401 rejection: `{"error":<message>}`.
pub open spec fn unauthorized_json(message: Seq<char>) -> Seq<char> {
    "{\"error\":"@ + json_string_of(message) + "}"@
}

/// Body of a 403 rejection:
/// `{"error":<message>,"pdp_response":{"decision":"Deny","reason":<reason>}}`.
pub open spec fn forbidden_json(message: Seq<char>, reason: Seq<char>) -> Seq<char> {
    "{\"error\":"@ + json_string_of(message) + ",\"pdp_response\":{\"decision\":\"Deny\",\"reason\":"@
        + json_string_of(reason) + "}}"@
}

pub fn credential_request_body(service: &str) -> (r: String)
    ensures
        r@ == credential_request(service@),
        needs_no_escape(service@) ==> r@ == "{\"serviceId\":"@ + quoted(service@) + "}"@,
{
    let mut b = String::from_str("{\"serviceId\":");
    b.append(json_text(service).as_str());
    b.append("}");
    b
}

pub fn evaluation_request_body(principal: &str, asset: &str) -> (r: String)
    ensures
        r@ == evaluation_request(principal@, asset@),
        needs_no_escape(principal@) && needs_no_escape(asset@) ==> r@ == "{\"principal\":{\"id\":"@
            + quoted(principal@) + "},\"queries\":[{\"assetId\":"@ + quoted(asset@)
            + ",\"action\":\"call\"}]}"@,
{
    let mut b = String::from_str("{\"principal\":{\"id\":");
    b.append(json_text(principal).as_str());
    b.append("},\"queries\":[{\"assetId\":");
    b.append(json_text(asset).as_str());
    b.append(",\"action\":\"call\"}]}");
    b
}

pub fn unauthorized_body(message: &str) -> (r: String)
    ensures
        r@ == unauthorized_json(message@),
        needs_no_escape(message@) ==> r@ == "{\"error\":"@ + quoted(message@) + "}"@,
{
    let mut b = String::from_str("{\"error\":");
    b.append(json_text(message).as_str());
    b.append("}");
    b
}

pub fn forbidden_body(message: &str, reason: &str) -> (r: String)
    ensures
        r@ == forbidden_json(message@, reason@),
        needs_no_escape(message@) && needs_no_escape(reason@) ==> r@ == "{\"error\":"@ + quoted(
            message@,
        ) + ",\"pdp_response\":{\"decision\":\"Deny\",\"reason\":"@ + quoted(reason@) + "}}"@,
{
    let mut b = String::from_str("{\"error\":");
    b.append(json_text(message).as_str());
    b.append(",\"pdp_response\":{\"decision\":\"Deny\",\"reason\":");
    b.append(json_text(reason).as_str());
    b.append("}}");
    b
}

} // verus!
