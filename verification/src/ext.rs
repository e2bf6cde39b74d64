//! Trusted boundary: every call into an outside crate, and into the parts
//! of std that vstd gives no specification, is wrapped here.  Each wrapper's
//! contract states only what the wrapped function's source or documentation
//! shows; JSON values stay opaque and are interpreted by verified code
//! through these accessors.

use vstd::prelude::*;

verus! {

/// Relies on `String::push`: appends one character to the string.
#[verifier::external_body]
pub(crate) fn push_char(s: &mut String, c: char)
    ensures
        final(s)@ == old(s)@.push(c),
{
    s.push(c)
}

#[verifier::external_type_specification]
#[verifier::external_body]
pub struct ExValue(serde_json::Value);

#[verifier::external_type_specification]
#[verifier::external_body]
pub struct ExJsonError(serde_json::Error);

#[verifier::external_type_specification]
#[verifier::external_body]
pub struct ExInvalidMethod(http::method::InvalidMethod);

#[verifier::external_type_specification]
#[verifier::external_body]
pub struct ExReqwestError(reqwest::Error);

#[verifier::external_type_specification]
#[verifier::external_body]
pub struct ExIoError(std::io::Error);

/// Whether `serde_json::from_str` parses this text as a JSON document.
/// Parsing is deterministic in the text alone.
pub uninterp spec fn json_doc_ok(s: Seq<char>) -> bool;

/// The fields of a token response read from this text: the token (the
/// document's `access_token` member where it has one, else its `token`
/// member), `token_type`, `expires_in` and `scope`; absent unless the text
/// parses and every field is there with the right type.
pub uninterp spec fn token_fields_of(s: Seq<char>) -> Option<
    (Seq<char>, Seq<char>, u64, Seq<char>),
>;

/// The string at the `name` member of this text's document; absent when
/// the text does not parse or the member is no string.
pub uninterp spec fn whoami_name_of(s: Seq<char>) -> Option<Seq<char>>;

/// The string at `data.name` of this text's document; absent when the
/// text does not parse or the member is no string.
pub uninterp spec fn user_name_of(s: Seq<char>) -> Option<Seq<char>>;

/// The string at `data.after` of this text's document; absent when the
/// text does not parse or the member is no string.
pub uninterp spec fn listing_after_of(s: Seq<char>) -> Option<Seq<char>>;

/// The length of the array at `data.children` of this text's document;
/// absent when the text does not parse or the member is no array.
pub uninterp spec fn listing_children_count_of(s: Seq<char>) -> Option<int>;

/// The strings of the array at the `names` member of this text's document,
/// in order, non-string entries skipped; absent when the text does not
/// parse or the member is no array.
pub uninterp spec fn names_of(s: Seq<char>) -> Option<Seq<Seq<char>>>;

/// The views of a sequence of owned strings.
pub open spec fn strings_view(v: Seq<String>) -> Seq<Seq<char>> {
    v.map_values(|s: String| s@)
}

/// Relies on `serde_json::from_str`: parses a JSON document into an opaque
/// value tree, or reports a decode error; deterministic in the text.
#[verifier::external_body]
pub(crate) fn json_from_str(s: &str) -> (r: Result<serde_json::Value, serde_json::Error>)
    ensures
        r is Ok <==> json_doc_ok(s@),
{
    serde_json::from_str(s)
}

/// Relies on `serde_json::from_str`, `Value::get` and `Value::as_str`:
/// reads the token-response fields out of the body text.
#[verifier::external_body]
pub(crate) fn read_token_response(body: &str) -> (r: Option<(String, String, u64, String)>)
    ensures
        r is Some <==> token_fields_of(body@) is Some,
        r is Some ==> json_doc_ok(body@) && r->Some_0.0@ == token_fields_of(body@)->Some_0.0
            && r->Some_0.1@ == token_fields_of(body@)->Some_0.1 && r->Some_0.2 == token_fields_of(body@)->Some_0.2
            && r->Some_0.3@ == token_fields_of(body@)->Some_0.3,
{
    let v: serde_json::Value = serde_json::from_str(body).ok()?;
    let token = match v.get("access_token") {
        Some(t) => t,
        None => v.get("token")?,
    };
    Some((
        token.as_str()?.to_owned(),
        v.get("token_type")?.as_str()?.to_owned(),
        v.get("expires_in")?.as_u64()?,
        v.get("scope")?.as_str()?.to_owned(),
    ))
}

/// Relies on `serde_json::from_str`, `Value::get` and `Value::as_str`:
/// reads the string at the `name` member of the body text's document.
#[verifier::external_body]
pub(crate) fn read_whoami_name(body: &str) -> (r: Option<String>)
    ensures
        r is Some <==> (json_doc_ok(body@) && whoami_name_of(body@) is Some),
        r is Some ==> r->Some_0@ == whoami_name_of(body@)->Some_0,
{
    Some(serde_json::from_str::<serde_json::Value>(body).ok()?.get("name")?.as_str()?.to_owned())
}

/// Relies on `serde_json::from_str`, `Value::get` and `Value::as_str`:
/// reads the string at `data.name` of the body text's document.
#[verifier::external_body]
pub(crate) fn read_user_name(body: &str) -> (r: Option<String>)
    ensures
        r is Some <==> (json_doc_ok(body@) && user_name_of(body@) is Some),
        r is Some ==> r->Some_0@ == user_name_of(body@)->Some_0,
{
    let v: serde_json::Value = serde_json::from_str(body).ok()?;
    Some(v.get("data")?.get("name")?.as_str()?.to_owned())
}

/// Relies on `serde_json::from_str`, `Value::get` and `Value::as_str`:
/// reads the string at `data.after` of the body text's document.
#[verifier::external_body]
pub(crate) fn read_listing_after(body: &str) -> (r: Option<String>)
    ensures
        r is Some <==> listing_after_of(body@) is Some,
        r is Some ==> json_doc_ok(body@) && r->Some_0@ == listing_after_of(body@)->Some_0,
{
    let v: serde_json::Value = serde_json::from_str(body).ok()?;
    Some(v.get("data")?.get("after")?.as_str()?.to_owned())
}

/// Relies on `serde_json::from_str`, `Value::get`, `Value::as_array` and
/// the array's `Clone`: reads the items under `data.children` of the body
/// text's document, as opaque values.
#[verifier::external_body]
pub(crate) fn read_listing_children(body: &str) -> (r: Option<Vec<serde_json::Value>>)
    ensures
        r is Some <==> listing_children_count_of(body@) is Some,
        r is Some ==> json_doc_ok(body@) && r->Some_0@.len() == listing_children_count_of(body@)->Some_0,
{
    let v: serde_json::Value = serde_json::from_str(body).ok()?;
    Some(v.get("data")?.get("children")?.as_array()?.clone())
}

/// Relies on `serde_json::from_str`, `Value::get`, `Value::as_array` and
/// `Value::as_str`: reads the strings of the `names` array of the body
/// text's document, in order, skipping non-string entries.
#[verifier::external_body]
pub(crate) fn read_names(body: &str) -> (r: Option<Vec<String>>)
    ensures
        r is Some <==> names_of(body@) is Some,
        r is Some ==> json_doc_ok(body@) && strings_view(r->Some_0@) == names_of(body@)->Some_0,
{
    let v: serde_json::Value = serde_json::from_str(body).ok()?;
    let arr = v.get("names")?.as_array()?;
    Some(arr.iter().filter_map(|x| x.as_str()).map(str::to_owned).collect())
}

/// Relies on `serde_json::Value`'s `Clone`: copies an opaque JSON value.
pub assume_specification[ <serde_json::Value as Clone>::clone ](
    v: &serde_json::Value,
) -> serde_json::Value;

/// Relies on `serde_json::Error`'s `Debug` rendering for the diagnostic
/// message.
#[verifier::external_body]
pub(crate) fn json_error_text(e: &serde_json::Error) -> String {
    format!("{:?}", e)
}

/// Relies on `http::method::InvalidMethod`'s `Debug` rendering for the
/// diagnostic message.
#[verifier::external_body]
pub(crate) fn method_error_text(e: &http::method::InvalidMethod) -> String {
    format!("{:?}", e)
}

/// Relies on `reqwest::Error`'s `Debug` rendering for the diagnostic
/// message.
#[verifier::external_body]
pub(crate) fn reqwest_error_text(e: &reqwest::Error) -> String {
    format!("{:?}", e)
}

/// Relies on `std::io::Error`'s `Debug` rendering for the diagnostic
/// message.
#[verifier::external_body]
pub(crate) fn io_error_text(e: &std::io::Error) -> String {
    format!("{:?}", e)
}

/// Whether `http::Method::from_bytes` accepts this method string.
pub uninterp spec fn method_ok(s: Seq<char>) -> bool;

/// Relies on `http::Method::from_bytes`: accepts a method token and rejects
/// anything else, deterministically in the input; its source accepts `GET`
/// and `POST` outright and rejects the empty string.
#[verifier::external_body]
pub(crate) fn parse_method(s: &str) -> (r: Result<(), http::method::InvalidMethod>)
    ensures
        r is Ok <==> method_ok(s@),
        s@ == "GET"@ ==> r is Ok,
        s@ == "POST"@ ==> r is Ok,
        s@.len() == 0 ==> r is Err,
{
    http::Method::from_bytes(s.as_bytes()).map(|_m| ())
}

} // verus!
