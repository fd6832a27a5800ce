//! What can go wrong with a call.

use crate::escape::push_char;
use crate::models;
use crate::models::error::ErrorView;
use vstd::prelude::*;
use vstd::string::StringExecFns;

verus! {

/// The decimal digits of a number, without leading zeros.
pub open spec fn decimal(n: nat) -> Seq<char>
    decreases n,
{
    if n < 10 {
        seq![('0' as u8 + n) as u8 as char]
    } else {
        decimal(n / 10).push(('0' as u8 + n % 10) as u8 as char)
    }
}

/// Writes a number in decimal digits.
pub fn to_decimal(n: u16) -> (r: String)
    ensures
        r@ == decimal(n as nat),
    decreases n,
{
    if n < 10 {
        let mut text = String::new();
        push_char(&mut text, (0x30 + n as u8) as char);
        assert(text@ =~= decimal(n as nat));
        text
    } else {
        let mut text = to_decimal(n / 10);
        push_char(&mut text, (0x30 + (n % 10) as u8) as char);
        text
    }
}

/// A response whose status is outside the success range.
#[derive(Clone, Debug, PartialEq)]
pub struct ApiError {
    /// The status code of the response.
    pub code: u16,
    /// The response body as text.
    pub body: String,
    /// The fault record that the body holds, where it holds one.
    pub fault: Option<models::Error>,
}

/// The mathematical value of an [`ApiError`].
pub struct ApiErrorView {
    pub code: u16,
    pub body: Seq<char>,
    pub fault: Option<ErrorView>,
}

impl DeepView for ApiError {
    type V = ApiErrorView;

    open spec fn deep_view(&self) -> ApiErrorView {
        ApiErrorView { code: self.code, body: self.body@, fault: self.fault.deep_view() }
    }
}

impl ApiError {
    /// What the error says of itself.
    pub open spec fn text(self) -> Seq<char> {
        "Server returned HTTP status: "@ + decimal(self.code as nat)
    }

    /// A line that names the status.
    pub fn to_string(&self) -> (r: String)
        ensures
            r@ == self.text(),
    {
        let number = to_decimal(self.code);
        String::from_str("Server returned HTTP status: ").concat(number.as_str())
    }

    /// The fault message that the server sent, if it sent one.
    pub fn fault_message(&self) -> (r: Option<&String>)
        ensures
            match r {
                Some(s) => self.fault is Some && self.fault->0.fault_message == Some(*s),
                None => self.fault is None || self.fault->0.fault_message is None,
            },
    {
        match &self.fault {
            Some(fault) => match &fault.fault_message {
                Some(message) => Some(message),
                None => None,
            },
            None => None,
        }
    }
}

/// Why a path cannot be turned into a request target.
#[derive(Clone, Copy, Debug, PartialEq, Eq, Structural)]
pub enum InvalidUri {
    /// The path is empty or does not begin with `/`.
    NotAbsolute,
    /// The path holds a byte that may not stand in a request target.
    InvalidCharacter,
    /// The target would exceed the longest URI that can be sent.
    TooLong,
}

/// The ways in which a call fails.
#[derive(Clone, Debug, PartialEq)]
pub enum Error {
    /// The server answered with a status outside the success range.
    Api(ApiError),
    /// The request could not be sent or the response could not be received.
    /// Carries the transport's message.
    Transport(String),
    /// The request body could not be written as JSON. Carries the printer's
    /// message. The kind is kept apart from the others; writing a model of
    /// this crate does not fail.
    Serialization(String),
    /// The body of a successful response is not JSON, or is JSON of another
    /// shape than the call expects. Carries a message.
    Deserialization(String),
    /// The path cannot be used as a request target.
    UriError(InvalidUri),
}

impl Error {
    /// What the error says of itself: its kind, and the message that it
    /// carries where it carries one.
    pub open spec fn text(self) -> Seq<char> {
        match self {
            Error::Api(_) => "API error"@,
            Error::Transport(message) => "transport error: "@ + message@,
            Error::Serialization(message) => "serialization error: "@ + message@,
            Error::Deserialization(message) => "deserialization error: "@ + message@,
            Error::UriError(InvalidUri::NotAbsolute) => "URI error: the path is not absolute"@,
            Error::UriError(InvalidUri::InvalidCharacter) => "URI error: invalid character in path"@,
            Error::UriError(InvalidUri::TooLong) => "URI error: too long"@,
        }
    }

    /// A line that names the kind of the error.
    pub fn to_string(&self) -> (r: String)
        ensures
            r@ == self.text(),
    {
        match self {
            Error::Api(_) => String::from_str("API error"),
            Error::Transport(message) => String::from_str("transport error: ").concat(
                message.as_str(),
            ),
            Error::Serialization(message) => String::from_str("serialization error: ").concat(
                message.as_str(),
            ),
            Error::Deserialization(message) => String::from_str("deserialization error: ").concat(
                message.as_str(),
            ),
            Error::UriError(InvalidUri::NotAbsolute) => String::from_str(
                "URI error: the path is not absolute",
            ),
            Error::UriError(InvalidUri::InvalidCharacter) => String::from_str(
                "URI error: invalid character in path",
            ),
            Error::UriError(InvalidUri::TooLong) => String::from_str("URI error: too long"),
        }
    }

    /// The fault message that the server sent, if it sent one.
    pub fn fault_message(&self) -> (r: Option<&String>)
        ensures
            match r {
                Some(s) => self matches Error::Api(e) && e.fault is Some
                    && e.fault->0.fault_message == Some(*s),
                None => !(self is Api) || self->Api_0.fault is None
                    || self->Api_0.fault->0.fault_message is None,
            },
    {
        match self {
            Error::Api(e) => e.fault_message(),
            _ => None,
        }
    }

    /// The status code, where the server answered.
    pub fn status(&self) -> (r: Option<u16>)
        ensures
            r == match *self {
                Error::Api(e) => Some(e.code),
                _ => None,
            },
    {
        match self {
            Error::Api(e) => Some(e.code),
            _ => None,
        }
    }
}

} // verus!
