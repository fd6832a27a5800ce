//! One call: what is sent, and what the answer means.

use crate::api::error::{ApiError, ApiErrorView, Error};
use crate::api::uri::{fault_in, socket_uri, unix_uri_of};
use crate::codec::Model;
use crate::json::{json_parse, json_text, Json, JsonV};
use crate::models;
use crate::models::error::ErrorView;
use std::marker::PhantomData;
use vstd::prelude::*;
use vstd::string::StringSliceAdditionalSpecFns;
use vstd::utf8::{decode_utf8, encode_utf8, valid_utf8};

verus! {

/// The verbs that the API uses.
#[derive(Clone, Copy, Debug, PartialEq, Eq, Structural)]
pub enum Method {
    Get,
    Put,
    Patch,
}

impl Method {
    /// The verb as it stands on the request line.
    pub open spec fn name(self) -> Seq<char> {
        match self {
            Method::Get => "GET"@,
            Method::Put => "PUT"@,
            Method::Patch => "PATCH"@,
        }
    }

    /// The verb as text.
    pub fn as_str(&self) -> (r: &'static str)
        ensures
            r@ == self.name(),
    {
        match self {
            Method::Get => "GET",
            Method::Put => "PUT",
            Method::Patch => "PATCH",
        }
    }
}

/// The media type of every body that is sent or expected.
pub const APPLICATION_JSON: &'static str = "application/json";

/// A header that a request carries.
#[derive(Clone, Copy, Debug, PartialEq, Eq, Structural)]
pub enum Header {
    /// `Content-Type: application/json`
    ContentTypeJson,
    /// `Accept: application/json`
    AcceptJson,
    /// `Content-Length`, with the number of bytes in the body.
    ContentLength(usize),
}

/// A call that is ready to be sent.
#[derive(Clone, Debug, PartialEq)]
pub struct Request {
    method: Method,
    path: String,
    no_return_type: bool,
    serialized_body: Option<String>,
}

/// The mathematical value of a [`Request`].
pub struct RequestView {
    pub method: Method,
    pub path: Seq<char>,
    /// Whether a successful answer carries nothing to read.
    pub no_return_type: bool,
    /// The JSON text that is sent, where a body is attached.
    pub body: Option<Seq<char>>,
}

impl View for Request {
    type V = RequestView;

    closed spec fn view(&self) -> RequestView {
        RequestView {
            method: self.method,
            path: self.path@,
            no_return_type: self.no_return_type,
            body: match self.serialized_body {
                Some(text) => Some(text@),
                None => None,
            },
        }
    }
}

/// The headers that go with a body of JSON text: its media type, the media
/// type that is accepted in return, and its length in bytes.
pub open spec fn headers_for(body: Option<Seq<char>>) -> Seq<Header> {
    match body {
        Some(text) => seq![
            Header::ContentTypeJson,
            Header::AcceptJson,
            Header::ContentLength(encode_utf8(text).len() as usize),
        ],
        None => Seq::empty(),
    }
}

/// Whether a status code reports success: the codes from 200 to 299.
pub open spec fn is_success(status: u16) -> bool {
    200 <= status < 300
}

/// The text that a byte string is shown as, with every malformed sequence
/// replaced by U+FFFD.
pub uninterp spec fn lossy_text(bytes: Seq<u8>) -> Seq<char>;

/// `String::from_utf8_lossy`: the bytes as text. Well-formed UTF-8 comes out
/// as the text it encodes.
#[verifier::external_body]
fn text_of(bytes: &[u8]) -> (r: String)
    ensures
        r@ == lossy_text(bytes@),
        valid_utf8(bytes@) ==> r@ == decode_utf8(bytes@),
{
    String::from_utf8_lossy(bytes).into_owned()
}

/// The text that a response body is shown as: the text that it encodes where
/// it is well-formed UTF-8, and otherwise its text with every malformed
/// sequence replaced.
pub open spec fn body_text(body: Seq<u8>) -> Seq<char> {
    if valid_utf8(body) {
        decode_utf8(body)
    } else {
        lossy_text(body)
    }
}

/// A body that encodes a text is shown as that text.
pub proof fn lemma_body_text_of_text(text: Seq<char>)
    ensures
        body_text(encode_utf8(text)) == text,
{
    vstd::utf8::encode_utf8_valid_utf8(text);
    vstd::utf8::encode_utf8_decode_utf8(text);
}

/// The fault record that a response body holds, if it holds one.
pub open spec fn fault_of(body: Seq<u8>) -> Option<ErrorView> {
    match json_parse(body) {
        Ok(j) => models::Error::decoded(j),
        Err(_) => None,
    }
}

/// What an answer means to a call that expects a `U`.
pub enum Reply<V> {
    /// The call succeeded with this value.
    Value(V),
    /// The server refused the call.
    Failure { code: u16, body: Seq<char>, fault: Option<ErrorView> },
    /// The call succeeded, and its body cannot be read as the expected
    /// value, for the reason that the message gives.
    Unreadable { message: Seq<char> },
}

/// The message for a body that is JSON of another shape than the call
/// expects.
pub open spec fn mismatch_text() -> Seq<char> {
    "the response body does not have the expected shape"@
}

/// The meaning of an answer. The status alone decides between success and
/// failure; the body of a success is read only where the call has a return
/// type.
pub open spec fn reply<U: Model>(no_return_type: bool, status: u16, body: Seq<u8>) -> Reply<U::V> {
    if !is_success(status) {
        Reply::Failure { code: status, body: body_text(body), fault: fault_of(body) }
    } else if no_return_type {
        match U::decoded(JsonV::Null) {
            Some(v) => Reply::Value(v),
            None => Reply::Unreadable { message: mismatch_text() },
        }
    } else {
        match json_parse(body) {
            Ok(j) => match U::decoded(j) {
                Some(v) => Reply::Value(v),
                None => Reply::Unreadable { message: mismatch_text() },
            },
            Err(message) => Reply::Unreadable { message },
        }
    }
}

/// Whether a result is what an answer means: the value, the failure with its
/// status, body text and fault record, or the error of deserialization with
/// its message.
pub open spec fn renders<U: Model>(r: Result<U, Error>, meaning: Reply<U::V>) -> bool {
    match meaning {
        Reply::Value(v) => r matches Ok(u) && u.deep_view() == v,
        Reply::Failure { code, body, fault } => r matches Err(Error::Api(e)) && e.deep_view() == (
        ApiErrorView { code, body, fault }),
        Reply::Unreadable { message } => r matches Err(Error::Deserialization(m)) && m@
            == message,
    }
}

/// What the transport hands back for a call.
#[derive(Clone, Debug, PartialEq)]
pub enum Answer {
    /// The request could not be sent, or the response could not be received.
    /// Carries the transport's message.
    Failed(String),
    /// A response arrived. `body` holds what was fetched of it, which is
    /// nothing where [`Request::reads_body`] said that nothing need be
    /// fetched.
    Received { status: u16, body: Vec<u8> },
}

impl Request {
    /// A call without a body whose answer is read.
    pub fn new(method: Method, path: String) -> (r: Request)
        ensures
            r@ == (RequestView { method, path: path@, no_return_type: false, body: None }),
    {
        Request { method, path, serialized_body: None, no_return_type: false }
    }

    /// Attaches the JSON form of `body`. Every model can be written, so the
    /// request always comes back.
    pub fn with_body<B: Model>(self, body: &B) -> (r: Result<Request, Error>)
        ensures
            r matches Ok(q) && q@ == (RequestView {
                body: Some(json_text(B::encoded(body.deep_view()))),
                ..self@
            }),
    {
        let json = body.to_json();
        match json.to_text() {
            Ok(text) => Ok(
                Request {
                    method: self.method,
                    path: self.path,
                    no_return_type: self.no_return_type,
                    serialized_body: Some(text),
                },
            ),
            Err(message) => Err(Error::Serialization(message)),
        }
    }

    /// Declares that a successful answer carries nothing to read.
    pub fn returns_nothing(self) -> (r: Request)
        ensures
            r@ == (RequestView { no_return_type: true, ..self@ }),
    {
        Request {
            method: self.method,
            path: self.path,
            no_return_type: true,
            serialized_body: self.serialized_body,
        }
    }

    pub fn method(&self) -> (r: Method)
        ensures
            r == self@.method,
    {
        self.method
    }

    pub fn path(&self) -> (r: &str)
        ensures
            r@ == self@.path,
    {
        self.path.as_str()
    }

    /// The body to send: the attached JSON text, or the empty string where
    /// no body is attached.
    pub fn body(&self) -> (r: &str)
        ensures
            r@ == match self@.body {
                Some(text) => text,
                None => Seq::<char>::empty(),
            },
    {
        match &self.serialized_body {
            Some(text) => text.as_str(),
            None => {
                proof {
                    reveal_strlit("");
                    assert(""@ =~= Seq::<char>::empty());
                }
                ""
            },
        }
    }

    /// The headers to send: those of a JSON body where one is attached, and
    /// none otherwise.
    pub fn headers(&self) -> (r: Vec<Header>)
        ensures
            r@ == headers_for(self@.body),
    {
        let mut headers: Vec<Header> = Vec::new();
        match &self.serialized_body {
            Some(text) => {
                headers.push(Header::ContentTypeJson);
                headers.push(Header::AcceptJson);
                headers.push(Header::ContentLength(text.as_str().len()));
                proof {
                    assert(headers@ =~= headers_for(self@.body));
                }
            },
            None => {
                proof {
                    assert(headers@ =~= headers_for(self@.body));
                }
            },
        }
        headers
    }

    /// The URI under which the call is requested from the Unix socket at
    /// `socket_path`, or the fault that keeps the path from being a request
    /// target.
    pub fn uri(&self, socket_path: &str) -> (r: Result<hyper::Uri, Error>)
        ensures
            match fault_in(socket_path.spec_bytes(), encode_utf8(self@.path)) {
                Some(fault) => r == Err::<hyper::Uri, Error>(Error::UriError(fault)),
                None => r == Ok::<hyper::Uri, Error>(
                    unix_uri_of(socket_path.spec_bytes(), encode_utf8(self@.path)),
                ),
            },
    {
        socket_uri(socket_path, self.path.as_str())
    }

    /// Whether the body of an answer with this status has to be fetched:
    /// always but for a success of a call without a return type.
    pub fn reads_body(&self, status: u16) -> (r: bool)
        ensures
            r == !(is_success(status) && self@.no_return_type),
    {
        !(200 <= status && status < 300 && self.no_return_type)
    }

    /// Turns an answer into the result of the call. `body` is what was
    /// fetched, and is not looked at where `reads_body` said that nothing
    /// need be fetched.
    pub fn execute<U: Model>(&self, status: u16, body: &[u8]) -> (r: Result<U, Error>)
        ensures
            renders(r, reply::<U>(self@.no_return_type, status, body@)),
    {
        if !(200 <= status && status < 300) {
            let fault = match Json::parse(body) {
                Ok(j) => models::Error::from_json(&j),
                Err(_) => None,
            };
            Err(Error::Api(ApiError { code: status, body: text_of(body), fault }))
        } else if self.no_return_type {
            match U::from_json(&Json::Null) {
                Some(u) => Ok(u),
                None => Err(Error::Deserialization(mismatch())),
            }
        } else {
            match Json::parse(body) {
                Ok(j) => match U::from_json(&j) {
                    Some(u) => Ok(u),
                    None => Err(Error::Deserialization(mismatch())),
                },
                Err(message) => Err(Error::Deserialization(message)),
            }
        }
    }
}

impl Request {
    /// Turns what the transport handed back into the result of the call. A
    /// failure of the transport is passed on at once; a response is read as
    /// [`Request::execute`] reads it.
    pub fn conclude<U: Model>(&self, answer: Answer) -> (r: Result<U, Error>)
        ensures
            match answer {
                Answer::Failed(message) => r == Err::<U, Error>(Error::Transport(message)),
                Answer::Received { status, body } => renders(
                    r,
                    reply::<U>(self@.no_return_type, status, body@),
                ),
            },
    {
        match answer {
            Answer::Failed(message) => Err(Error::Transport(message)),
            Answer::Received { status, body } => self.execute(status, body.as_slice()),
        }
    }
}

/// A request together with the type of what a successful answer to it
/// holds.
#[derive(Debug)]
pub struct Call<U: Model> {
    request: Request,
    expects: PhantomData<U>,
}

impl<U: Model> View for Call<U> {
    type V = RequestView;

    closed spec fn view(&self) -> RequestView {
        self.request@
    }
}

impl<U: Model> Call<U> {
    /// Declares that a successful answer to `request` holds a `U`.
    pub fn new(request: Request) -> (r: Call<U>)
        ensures
            r@ == request@,
    {
        Call { request, expects: PhantomData }
    }

    /// What is sent.
    pub fn request(&self) -> (r: &Request)
        ensures
            r@ == self@,
    {
        &self.request
    }

    /// What is sent, without the type of the answer.
    pub fn into_request(self) -> (r: Request)
        ensures
            r@ == self@,
    {
        self.request
    }

    /// Turns what the transport handed back into the result of the call, as
    /// [`Request::conclude`] does for the type that the call expects.
    pub fn conclude(&self, answer: Answer) -> (r: Result<U, Error>)
        ensures
            match answer {
                Answer::Failed(message) => r == Err::<U, Error>(Error::Transport(message)),
                Answer::Received { status, body } => renders(
                    r,
                    reply::<U>(self@.no_return_type, status, body@),
                ),
            },
    {
        self.request.conclude(answer)
    }
}

/// The message of the error for a body that is JSON of another shape than
/// the call expects.
fn mismatch() -> (r: String)
    ensures
        r@ == mismatch_text(),
{
    "the response body does not have the expected shape".to_owned()
}

} // verus!
