//! What goes over HTTP between this library and the registry: the request to
//! send, the reply that came back, and the JSON document in a reply.

use super::error::{SRCError, SRCErrorView};
use super::json::{json_text_model, parse_json, Json, JsonView};
use super::text::{decimal, decimal_text};
use vstd::prelude::*;
use vstd::utf8::{decode_utf8, valid_utf8};

verus! {

/// The content type of what is posted to the registry, which is also the type
/// that is accepted back.
pub const CONTENT_TYPE: &'static str = "application/vnd.schemaregistry.v1+json";

/// A request to the registry: a GET of the address, or with a body a POST of
/// that body to the address, with [`CONTENT_TYPE`] as content type and as
/// accepted type.
#[derive(Debug)]
pub struct Request {
    pub url: String,
    pub body: Option<String>,
}

/// The mathematical content of a [`Request`].
pub struct RequestView {
    pub url: Seq<char>,
    pub body: Option<Seq<char>>,
}

impl View for Request {
    type V = RequestView;

    open spec fn view(&self) -> RequestView {
        RequestView {
            url: self.url@,
            body: match self.body {
                Some(body) => Some(body@),
                None => None,
            },
        }
    }
}

/// What became of a request.
#[derive(Debug)]
pub enum Reply {
    /// The request could not be performed; the text says why.
    Failed(String),
    /// The request was performed, but the status code of the response could
    /// not be had; the text says why.
    NoStatus(String),
    /// A response with this status code and this body.
    Received(u32, Vec<u8>),
}

/// The mathematical content of a [`Reply`].
pub enum ReplyView {
    Failed(Seq<char>),
    NoStatus(Seq<char>),
    Received(u32, Seq<u8>),
}

impl View for Reply {
    type V = ReplyView;

    open spec fn view(&self) -> ReplyView {
        match self {
            Reply::Failed(cause) => ReplyView::Failed(cause@),
            Reply::NoStatus(cause) => ReplyView::NoStatus(cause@),
            Reply::Received(status, body) => ReplyView::Received(*status, body@),
        }
    }
}

/// The address of the schema with an identifier.
pub open spec fn schema_by_id_url(base: Seq<char>, id: u32) -> Seq<char> {
    base + "/schemas/ids/"@ + decimal(id as nat)
}

/// The address of the latest version of a subject.
pub open spec fn latest_version_url(base: Seq<char>, subject: Seq<char>) -> Seq<char> {
    base + "/subjects/"@ + subject + "/versions/latest"@
}

/// The address of one version of a subject.
pub open spec fn version_url(base: Seq<char>, subject: Seq<char>, version: u32) -> Seq<char> {
    base + "/subjects/"@ + subject + "/versions/"@ + decimal(version as nat)
}

/// The address to which a schema is posted to be registered under a subject.
pub open spec fn versions_url(base: Seq<char>, subject: Seq<char>) -> Seq<char> {
    base + "/subjects/"@ + subject + "/versions"@
}

/// The address to which a schema is posted to learn its version under a
/// subject.
pub open spec fn subject_url(base: Seq<char>, subject: Seq<char>) -> Seq<char> {
    base + "/subjects/"@ + subject
}

/// The message of the error for a response with another status code than 200.
pub open spec fn status_message(status: u32) -> Seq<char> {
    "Did not get a 200 response code but "@ + decimal(status as nat) + " instead"@
}

/// What std has to say against bytes that are no UTF-8.
pub uninterp spec fn utf8_complaint(bytes: Seq<u8>) -> Seq<char>;

/// The JSON document in a reply, or the error that the reply amounts to.
/// `failure` is the message for a request that could not be performed.
pub open spec fn json_of_reply(reply: ReplyView, failure: Seq<char>) -> Result<
    JsonView,
    SRCErrorView,
> {
    match reply {
        ReplyView::Failed(cause) => Err(SRCErrorView::fresh(failure, Some(cause), true)),
        ReplyView::NoStatus(cause) => Err(
            SRCErrorView::fresh("Encountered error getting http response"@, Some(cause), true),
        ),
        ReplyView::Received(status, body) => if status != 200 {
            Err(SRCErrorView::fresh(status_message(status), None, false))
        } else if !valid_utf8(body) {
            Err(SRCErrorView::fresh("Invalid UTF-8 sequence"@, Some(utf8_complaint(body)), false))
        } else {
            match json_text_model(decode_utf8(body)) {
                Ok(json) => Ok(json),
                Err(complaint) => Err(
                    SRCErrorView::fresh("Invalid json string"@, Some(complaint), false),
                ),
            }
        },
    }
}

/// Calls `std::str::from_utf8`, which gives the text that the bytes encode if
/// they are UTF-8, and an error that says why they are not otherwise. The
/// contract claims that, and names the text of the error.
#[verifier::external_body]
fn str_from_utf8(bytes: &[u8]) -> (result: Result<&str, String>)
    ensures
        match result {
            Ok(text) => valid_utf8(bytes@) && text@ == decode_utf8(bytes@),
            Err(complaint) => !valid_utf8(bytes@) && complaint@ == utf8_complaint(bytes@),
        },
{
    std::str::from_utf8(bytes).map_err(|error| error.to_string())
}

/// The content of the outcome of [`to_json`].
pub open spec fn json_result_view(result: Result<Json, SRCError>) -> Result<
    JsonView,
    SRCErrorView,
> {
    match result {
        Ok(json) => Ok(json@),
        Err(error) => Err(error@),
    }
}

/// Where the status code of a reply is 200, reads its body as JSON. A request
/// that could not be performed is an error that a retry may mend, with
/// `failure` as its message; another status code, a body that is no UTF-8 and
/// a body that is no JSON are errors that no retry mends.
pub fn to_json(reply: &Reply, failure: &str) -> (result: Result<Json, SRCError>)
    ensures
        json_result_view(result) == json_of_reply(reply@, failure@),
{
    match reply {
        Reply::Failed(cause) => Err(SRCError::new(failure, Some(cause.clone()), true)),
        Reply::NoStatus(cause) => Err(
            SRCError::new("Encountered error getting http response", Some(cause.clone()), true),
        ),
        Reply::Received(status, body) => {
            if *status != 200 {
                let mut message = String::from_str("Did not get a 200 response code but ");
                let code = decimal_text(*status as u64);
                message.append(code.as_str());
                message.append(" instead");
                return Err(SRCError::non_retryable_without_cause(message.as_str()));
            }
            let text = match str_from_utf8(body.as_slice()) {
                Ok(text) => text,
                Err(complaint) => {
                    return Err(SRCError::new("Invalid UTF-8 sequence", Some(complaint), false));
                },
            };
            match parse_json(text) {
                Ok(json) => Ok(json),
                Err(complaint) => Err(SRCError::new("Invalid json string", Some(complaint), false)),
            }
        },
    }
}

/// A GET of an address.
pub fn get_request(url: String) -> (request: Request)
    ensures
        request@ == (RequestView { url: url@, body: None }),
{
    Request { url, body: None }
}

/// A POST of a body to an address.
pub fn post_request(url: String, body: String) -> (request: Request)
    ensures
        request@ == (RequestView { url: url@, body: Some(body@) }),
{
    Request { url, body: Some(body) }
}

/// The address of the schema with an identifier.
pub fn schema_by_id_address(base: &str, id: u32) -> (url: String)
    ensures
        url@ == schema_by_id_url(base@, id),
{
    let mut url = String::from_str(base);
    url.append("/schemas/ids/");
    let number = decimal_text(id as u64);
    url.append(number.as_str());
    url
}

/// The address of the latest version of a subject.
pub fn latest_version_address(base: &str, subject: &str) -> (url: String)
    ensures
        url@ == latest_version_url(base@, subject@),
{
    let mut url = String::from_str(base);
    url.append("/subjects/");
    url.append(subject);
    url.append("/versions/latest");
    url
}

/// The address of one version of a subject.
pub fn version_address(base: &str, subject: &str, version: u32) -> (url: String)
    ensures
        url@ == version_url(base@, subject@, version),
{
    let mut url = String::from_str(base);
    url.append("/subjects/");
    url.append(subject);
    url.append("/versions/");
    let number = decimal_text(version as u64);
    url.append(number.as_str());
    url
}

/// The address to which a schema is posted to be registered under a subject.
pub fn versions_address(base: &str, subject: &str) -> (url: String)
    ensures
        url@ == versions_url(base@, subject@),
{
    let mut url = String::from_str(base);
    url.append("/subjects/");
    url.append(subject);
    url.append("/versions");
    url
}

/// The address to which a schema is posted to learn its version under a
/// subject.
pub fn subject_address(base: &str, subject: &str) -> (url: String)
    ensures
        url@ == subject_url(base@, subject@),
{
    let mut url = String::from_str(base);
    url.append("/subjects/");
    url.append(subject);
    url
}

} // verus!
