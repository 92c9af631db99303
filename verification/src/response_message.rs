//! Status codes, and complete response messages as text.

use vstd::prelude::*;
use vstd::string::StringExecFns;
use crate::decimal::{decimal_digits, decimal_string};
use crate::wire::{message_text, status_line};

verus! {

/// The status of a response.
#[derive(Copy, Clone, Debug, PartialEq, Eq, Structural)]
pub enum StatusCode {
    Success,
    Created,
    BadRequest,
    NotFound,
    InternalServerError,
}

impl StatusCode {
    /// The three-digit code of the status.
    pub open spec fn code(self) -> nat {
        match self {
            StatusCode::Success => 200,
            StatusCode::Created => 201,
            StatusCode::BadRequest => 400,
            StatusCode::NotFound => 404,
            StatusCode::InternalServerError => 500,
        }
    }

    /// The reason phrase that goes with the code.
    pub open spec fn reason(self) -> Seq<char> {
        match self {
            StatusCode::Success => "OK"@,
            StatusCode::Created => "Created"@,
            StatusCode::BadRequest => "Bad Request"@,
            StatusCode::NotFound => "Not Found"@,
            StatusCode::InternalServerError => "Internal Server Error"@,
        }
    }

    /// The status as a status line shows it: the code, a space, the reason phrase.
    pub open spec fn text(self) -> Seq<char> {
        decimal_digits(self.code()) + seq![' '] + self.reason()
    }

    /// Whether the status reports an error: a code of 400 or more.
    pub open spec fn is_error(self) -> bool {
        self.code() >= 400
    }

    /// The three-digit code of the status.
    pub fn number(&self) -> (n: u16)
        ensures
            n == self.code(),
    {
        match self {
            StatusCode::Success => 200,
            StatusCode::Created => 201,
            StatusCode::BadRequest => 400,
            StatusCode::NotFound => 404,
            StatusCode::InternalServerError => 500,
        }
    }

    /// The reason phrase that goes with the code.
    pub fn phrase(&self) -> (phrase: &'static str)
        ensures
            phrase@ == self.reason(),
    {
        match self {
            StatusCode::Success => "OK",
            StatusCode::Created => "Created",
            StatusCode::BadRequest => "Bad Request",
            StatusCode::NotFound => "Not Found",
            StatusCode::InternalServerError => "Internal Server Error",
        }
    }

    /// The code, a space and the reason phrase, as in `404 Not Found`.
    pub fn to_string(&self) -> (s: String)
        ensures
            s@ == self.text(),
    {
        let mut s = decimal_string(self.number() as usize);
        s.push(' ');
        s.append(self.phrase());
        assert(s@ =~= self.text());
        s
    }
}

/// A complete response message, ready to be written to a connection.
#[derive(Debug)]
pub struct ResponseMessage {
    pub content: String,
}

/// The message that carries `content_error` as its body: status line, the
/// length and the type of the body, an empty line, the body.
pub fn header_format(status_code: StatusCode, content_type: &str, content_error: &str) -> (message:
    String)
    ensures
        message@ == message_text(status_code, content_type@, content_error@),
{
    let mut message = String::from_str("HTTP/1.1 ");
    message.append(status_code.to_string().as_str());
    message.append("\r\n");
    assert(message@ =~= status_line(status_code));
    message.append("Content-Length");
    message.append(": ");
    message.append(decimal_string(content_error.as_bytes().len()).as_str());
    message.append("\r\n");
    message.append("Content-Type");
    message.append(": ");
    message.append(content_type);
    message.append("\r\n");
    message.append("\r\n");
    message.append(content_error);
    assert(message@ =~= message_text(status_code, content_type@, content_error@));
    message
}

impl ResponseMessage {
    /// A `400 Bad Request` message with the given body.
    pub fn badrequest_error(content_error: &str, content_type: &str) -> (message: Self)
        ensures
            message.content@ == message_text(StatusCode::BadRequest, content_type@, content_error@),
    {
        ResponseMessage {
            content: header_format(StatusCode::BadRequest, content_type, content_error),
        }
    }

    /// A `404 Not Found` message with the given body.
    pub fn not_found_error(content_error: &str, content_type: &str) -> (message: Self)
        ensures
            message.content@ == message_text(StatusCode::NotFound, content_type@, content_error@),
    {
        ResponseMessage {
            content: header_format(StatusCode::NotFound, content_type, content_error),
        }
    }

    /// The message behind the label `Message: `.
    pub fn to_string(&self) -> (s: String)
        ensures
            s@ == "Message: "@ + self.content@,
    {
        let mut s = String::from_str("Message: ");
        s.append(self.content.as_str());
        s
    }
}

} // verus!
