//! The text of a response as it goes over the wire.

use vstd::prelude::*;
use vstd::utf8::encode_utf8;
use crate::decimal::decimal_digits;
use crate::response_message::StatusCode;

verus! {

/// The first line of a response: protocol version, status, line end.
pub open spec fn status_line(status: StatusCode) -> Seq<char> {
    "HTTP/1.1 "@ + status.text() + "\r\n"@
}

/// One header line: name, colon and space, value, line end.
pub open spec fn header_line(name: Seq<char>, value: Seq<char>) -> Seq<char> {
    name + ": "@ + value + "\r\n"@
}

/// The header lines of `fields`, in their order.
pub open spec fn header_lines(fields: Seq<(Seq<char>, Seq<char>)>) -> Seq<char>
    decreases fields.len(),
{
    if fields.len() == 0 {
        Seq::empty()
    } else {
        header_lines(fields.drop_last()) + header_line(fields.last().0, fields.last().1)
    }
}

/// A response with the header fields `fields` and the body `body`: status
/// line, header lines, an empty line, the body.
pub open spec fn response_text(
    status: StatusCode,
    fields: Seq<(Seq<char>, Seq<char>)>,
    body: Seq<char>,
) -> Seq<char> {
    status_line(status) + header_lines(fields) + "\r\n"@ + body
}

/// The two header fields that every response carries: the length of the
/// body in bytes, then its type.
pub open spec fn standard_fields(content_type: Seq<char>, body: Seq<char>) -> Seq<
    (Seq<char>, Seq<char>),
> {
    seq![
        ("Content-Length"@, decimal_digits(encode_utf8(body).len())),
        ("Content-Type"@, content_type),
    ]
}

/// A response that carries `body` with the two standard header fields.
pub open spec fn message_text(status: StatusCode, content_type: Seq<char>, body: Seq<char>) -> Seq<
    char,
> {
    status_line(status) + header_line("Content-Length"@, decimal_digits(encode_utf8(body).len()))
        + header_line("Content-Type"@, content_type) + "\r\n"@ + body
}

/// What `message_text` holds before its empty line: the status line and the
/// two header lines, without the line end of the last.
pub open spec fn message_head(status: StatusCode, content_type: Seq<char>, body: Seq<char>) -> Seq<
    char,
> {
    status_line(status) + header_line("Content-Length"@, decimal_digits(encode_utf8(body).len()))
        + "Content-Type"@ + ": "@ + content_type
}

/// The characters of an empty line after a line: CR LF CR LF.
pub open spec fn head_end() -> Seq<char> {
    seq!['\r', '\n', '\r', '\n']
}

/// With the standard fields, `response_text` is `message_text`.
pub proof fn lemma_standard_response(status: StatusCode, content_type: Seq<char>, body: Seq<char>)
    ensures
        response_text(status, standard_fields(content_type, body), body) == message_text(
            status,
            content_type,
            body,
        ),
{
    let fields = standard_fields(content_type, body);
    let first = fields.drop_last();
    assert(first.drop_last() =~= Seq::<(Seq<char>, Seq<char>)>::empty());
    assert(header_lines(first.drop_last()) =~= Seq::<char>::empty());
    assert(header_lines(first) =~= header_line(first.last().0, first.last().1));
    assert(response_text(status, fields, body) =~= message_text(status, content_type, body));
}

} // verus!
