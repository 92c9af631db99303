//! A not-found message with a numeric status code.

use vstd::prelude::*;
use vstd::string::StringExecFns;
use crate::decimal::{decimal_digits, decimal_string, signed_decimal_digits, signed_decimal_string};
use crate::wire::header_line;

verus! {

/// A status with the number that stands for it on the wire.
#[derive(Copy, Clone, Debug, PartialEq, Eq, Structural)]
pub enum StatusCode {
    Success(i32),
    NotFound(i32),
}

impl StatusCode {
    /// The number that the status carries.
    pub open spec fn number(self) -> int {
        match self {
            StatusCode::Success(c) => c as int,
            StatusCode::NotFound(c) => c as int,
        }
    }

    /// The number of the status as a decimal numeral.
    pub fn to_string(&self) -> (s: String)
        ensures
            s@ == signed_decimal_digits(self.number()),
    {
        match self {
            StatusCode::Success(c) => signed_decimal_string(*c),
            StatusCode::NotFound(c) => signed_decimal_string(*c),
        }
    }
}

/// A complete error message, ready to be written to a connection.
#[derive(Debug)]
pub struct ResponseError {
    pub content: String,
}

/// The `404 Not Found` message that carries `body` as plain text in UTF-8:
/// status line, the length of the body in bytes, its type, an empty line,
/// the body.
pub open spec fn not_found_text(body: Seq<char>) -> Seq<char> {
    "HTTP/1.1 "@ + decimal_digits(404) + " Not Found\r\n"@ + header_line(
        "Content-Length"@,
        decimal_digits(vstd::utf8::encode_utf8(body).len()),
    ) + header_line("Content-Type"@, "text/plain; charset=utf-8"@) + "\r\n"@ + body
}

impl ResponseError {
    /// A `404 Not Found` message with `content_error` as its body.
    pub fn not_found_error(content_error: &str) -> (error: Self)
        ensures
            error.content@ == not_found_text(content_error@),
    {
        let mut message = String::from_str("HTTP/1.1 ");
        message.append(StatusCode::NotFound(404).to_string().as_str());
        message.append(" Not Found\r\n");
        message.append("Content-Length");
        message.append(": ");
        message.append(decimal_string(content_error.as_bytes().len()).as_str());
        message.append("\r\n");
        message.append("Content-Type");
        message.append(": ");
        message.append("text/plain; charset=utf-8");
        message.append("\r\n");
        message.append("\r\n");
        message.append(content_error);
        assert(message@ =~= not_found_text(content_error@));
        ResponseError { content: message }
    }

    /// The message behind the label `Message: `.
    pub fn to_string(&self) -> (s: String)
        ensures
            s@ == "Message: "@ + self.content@,
    {
        let mut s = String::from_str("Message: ");
        s.append(self.content.as_str());
        s
    }
}

} // verus!
