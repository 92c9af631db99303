//! What holds of the library as a whole: laws that relate the response
//! builder, the wire parser, the router and the steps of a connection.

use vstd::prelude::*;
use vstd::utf8::encode_utf8;
use crate::connection::{first_step, next_step, ActionView, Connection, EventView};
use crate::decimal::{
    decimal_digits,
    decimal_value,
    is_digit,
    lemma_decimal_digits_are_digits,
    lemma_decimal_value_of_digits,
};
use crate::error_handle::not_found_text;
use crate::handlers::reply;
use crate::headers::{
    distinct_names,
    has_name,
    insert_field,
    lemma_insert_keeps_names_distinct,
    lemma_lookup_after_insert,
    lookup,
    position,
};
use crate::request::{
    after_first_line,
    blank_line,
    blank_line_at,
    body_block,
    first_line,
    head_block,
    header_fields,
    header_of_line,
    is_first_blank_line,
    lines,
    parse,
    RequestView,
};
use crate::response_message::StatusCode;
use crate::server::{method_of, select, Asset, Handler, RequestMethod};
use crate::text::{
    after_first_word,
    first_word,
    is_run,
    is_whitespace,
    lemma_encode_utf8_concat,
    lemma_run,
    run,
    trim,
    trim_start,
    word,
    CharClass,
};
use crate::wire::{head_end, message_head, message_text};

verus! {

/// The bytes `bytes` are a message with the head `head` and the body
/// `body`: the head, an empty line, the body; the head holds no empty line,
/// so that a reader finds its end where it ends; and the `Content-Length`
/// field of the head is the numeral of the number of bytes of the body.
pub open spec fn frames(head: Seq<char>, body: Seq<char>, bytes: Seq<u8>) -> bool {
    &&& bytes == encode_utf8(head + head_end()) + encode_utf8(body)
    &&& bytes == encode_utf8(head + head_end() + body)
    &&& head_block(head + head_end() + body) == head
    &&& body_block(head + head_end() + body) == body
    &&& lookup(header_fields(lines(after_first_line(head))), "Content-Length"@) == Some(
        decimal_digits(encode_utf8(body).len()),
    )
    &&& decimal_value(decimal_digits(encode_utf8(body).len())) == encode_utf8(body).len()
}

/// The bytes `bytes` are a message whose `Content-Length` field gives the
/// number of bytes that follow the empty line.
pub open spec fn well_framed(bytes: Seq<u8>) -> bool {
    exists|head: Seq<char>, body: Seq<char>| #[trigger] frames(head, body, bytes)
}

/// The character `c` does not occur in `s`.
pub open spec fn free_of(s: Seq<char>, c: char) -> bool {
    forall|i: int| 0 <= i < s.len() ==> #[trigger] s[i] != c
}

/// A run over `a + b` ends where `a` ends, if all of `a` is in the class
/// and `b` opens with a character that is not.
proof fn lemma_run_stops(a: Seq<char>, b: Seq<char>, k: CharClass)
    requires
        forall|i: int| 0 <= i < a.len() ==> k.has(#[trigger] a[i]),
        b.len() > 0 ==> !k.has(b[0]),
    ensures
        run(a + b, k) == a.len(),
{
    let s = a + b;
    assert forall|j: int| 0 <= j < a.len() implies k.has(#[trigger] s[j]) by {
        assert(s[j] == a[j]);
    }
    if a.len() < s.len() {
        assert(s[a.len() as int] == b[0]);
    }
    assert(is_run(s, k, a.len() as int));
    lemma_run(s, k);
}

/// The status of a status line holds no line feed.
proof fn lemma_status_text(status: StatusCode)
    ensures
        free_of(status.text(), '\n'),
{
    reveal_with_fuel(decimal_digits, 3);
    reveal_strlit("OK");
    reveal_strlit("Created");
    reveal_strlit("Bad Request");
    reveal_strlit("Not Found");
    reveal_strlit("Internal Server Error");
    lemma_decimal_digits_are_digits(status.code());
    let digits = decimal_digits(status.code());
    let text = status.text();
    let reason = status.reason();
    assert(free_of(reason, '\n'));
    assert forall|i: int| 0 <= i < text.len() implies #[trigger] text[i] != '\n' by {
        if i < digits.len() {
            assert(text[i] == digits[i]);
            assert(is_digit(digits[i]));
        } else if i == digits.len() {
        } else {
            assert(text[i] == reason[i - digits.len() - 1]);
        }
    }
}

/// Every line feed of `s` is followed, within `s`, by a character other
/// than a carriage return: no line of `s` but the first is empty, and `s`
/// does not end with a line feed.
spec fn no_empty_line(s: Seq<char>) -> bool {
    forall|i: int|
        0 <= i < s.len() && #[trigger] s[i] == '\n' ==> i + 1 < s.len() && s[i + 1] != '\r'
}

/// A text without a line feed has no empty line.
proof fn lemma_no_empty_line_one(x: Seq<char>)
    requires
        free_of(x, '\n'),
    ensures
        no_empty_line(x),
{
}

/// A line before a text without an empty line makes a text without an
/// empty line, if the text does not open with a carriage return.
proof fn lemma_no_empty_line_more(x: Seq<char>, y: Seq<char>)
    requires
        free_of(x, '\n'),
        no_empty_line(y),
        y.len() > 0,
        y[0] != '\r',
    ensures
        no_empty_line(x + line_end() + y),
{
    let s = x + line_end() + y;
    let n = x.len() as int;
    assert forall|i: int| 0 <= i < s.len() && #[trigger] s[i] == '\n' implies i + 1 < s.len() && s[i
        + 1] != '\r' by {
        if i < n {
            assert(s[i] == x[i]);
        } else if i == n {
            assert(s[i] == '\r');
        } else if i == n + 1 {
            assert(s[i + 1] == y[0]);
        } else {
            assert(s[i] == y[i - n - 2]);
            assert(y[i - n - 2] == '\n');
            assert(s[i + 1] == y[i - n - 1]);
        }
    }
}

/// After a head without an empty line, the first empty line of a message
/// is the one that ends the head.
proof fn lemma_blank_line_after_head(head: Seq<char>, body: Seq<char>)
    requires
        no_empty_line(head),
    ensures
        blank_line(head + head_end() + body) == Some(head.len() as int),
        head_block(head + head_end() + body) == head,
        body_block(head + head_end() + body) == body,
{
    let s = head + head_end() + body;
    let h = head.len() as int;
    assert(s[h] == '\r' && s[h + 1] == '\n' && s[h + 2] == '\r' && s[h + 3] == '\n');
    assert(blank_line_at(s, h));
    assert forall|j: int| 0 <= j < h implies !blank_line_at(s, j) by {
        if blank_line_at(s, j) {
            if j + 1 < h {
                assert(s[j + 1] == head[j + 1]);
                assert(head[j + 1] == '\n');
                assert(s[j + 2] == head[j + 2]);
            } else {
                assert(s[j + 1] == '\r');
            }
        }
    }
    assert(is_first_blank_line(s, h));
    let c = choose|i: int| is_first_blank_line(s, i);
    if c < h {
        assert(!blank_line_at(s, c));
    } else if h < c {
        assert(!blank_line_at(s, h));
    }
    assert(s.take(h) =~= head);
    assert(s.skip(h + 4) =~= body);
}

/// A line that holds no line feed, with its line end, is the first line of
/// what it opens, and what follows the line end is the rest.
proof fn lemma_first_line(x: Seq<char>, y: Seq<char>)
    requires
        free_of(x, '\n'),
    ensures
        first_line(x + line_end() + y) == x,
        after_first_line(x + line_end() + y) == y,
        lines(x + line_end() + y) == seq![x] + lines(y),
{
    let s = x + line_end() + y;
    let a = x + seq!['\r'];
    let b = seq!['\n'] + y;
    assert(s =~= a + b);
    assert forall|i: int| 0 <= i < a.len() implies CharClass::Except('\n').has(#[trigger] a[i]) by {
        if i < x.len() {
            assert(a[i] == x[i]);
        }
    }
    lemma_run_stops(a, b, CharClass::Except('\n'));
    assert(s.take(a.len() as int) =~= a);
    assert(a.drop_last() =~= x);
    assert(s.skip(a.len() as int + 1) =~= y);
}

/// A text without a line feed is its own only line.
proof fn lemma_last_line(x: Seq<char>)
    requires
        free_of(x, '\n'),
        x.len() > 0,
    ensures
        lines(x) == seq![x],
        first_line(x) == x,
        after_first_line(x) == Seq::<char>::empty(),
{
    assert(x =~= x + Seq::<char>::empty());
    lemma_run_stops(x, Seq::<char>::empty(), CharClass::Except('\n'));
    assert(first_line(x) == x);
    assert(after_first_line(x) == Seq::<char>::empty());
    assert(lines(Seq::<char>::empty()) =~= Seq::<Seq<char>>::empty());
    assert(lines(x) =~= seq![x]);
}

/// A header line gives back its name, and its value less the white space
/// around it.
proof fn lemma_header_of_line(name: Seq<char>, value: Seq<char>)
    requires
        free_of(name, ':'),
        name.len() > 0,
    ensures
        header_of_line(name + ": "@ + value) == Some((name, trim(seq![' '] + value))),
{
    reveal_strlit(": ");
    let line = name + ": "@ + value;
    let b = ": "@ + value;
    assert(line =~= name + b);
    assert(b[0] == ':');
    lemma_run_stops(name, b, CharClass::Except(':'));
    assert(line.take(name.len() as int) =~= name);
    assert(line.skip(name.len() as int + 1) =~= seq![' '] + value);
}

/// Trimming takes the one space off the front of a value that neither
/// opens nor closes with white space.
proof fn lemma_trim_padded(value: Seq<char>)
    requires
        value.len() > 0,
        !is_whitespace(value[0]),
        !is_whitespace(value.last()),
    ensures
        trim(seq![' '] + value) == value,
{
    let padded = seq![' '] + value;
    lemma_run_stops(seq![' '], value, CharClass::Space);
    assert(padded.skip(1) =~= value);
    assert(trim_start(padded) == value);
    let back = value.reverse();
    assert(back[0] == value.last());
    assert(back =~= Seq::<char>::empty() + back);
    lemma_run_stops(Seq::<char>::empty(), back, CharClass::Space);
    assert(value.take(value.len() as int) =~= value);
}

/// The response builder frames its message: whatever the status and the
/// body, and for every content type that holds no line feed, the
/// `Content-Length` field of the message is the numeral of the number of
/// bytes that follow the empty line, those bytes are the body, and a reader
/// that splits the message at its first empty line finds that head and that
/// body.
pub proof fn lemma_message_is_framed(status: StatusCode, content_type: Seq<char>, body: Seq<char>)
    requires
        free_of(content_type, '\n'),
    ensures
        message_text(status, content_type, body) == message_head(status, content_type, body)
            + head_end() + body,
        frames(message_head(status, content_type, body), body, reply(status, content_type, body)),
        well_framed(reply(status, content_type, body)),
        first_line(message_head(status, content_type, body)) == "HTTP/1.1 "@ + status.text(),
        lookup(
            header_fields(lines(after_first_line(message_head(status, content_type, body)))),
            "Content-Type"@,
        ) == Some(trim(seq![' '] + content_type)),
{
    reveal_strlit("HTTP/1.1 ");
    reveal_strlit("Content-Length");
    reveal_strlit("Content-Type");
    reveal_strlit(": ");
    reveal_strlit("\r\n");
    let n = encode_utf8(body).len();
    let d = decimal_digits(n);
    let l0 = "HTTP/1.1 "@ + status.text();
    let l1 = "Content-Length"@ + ": "@ + d;
    let l2 = "Content-Type"@ + ": "@ + content_type;
    let rest = l1 + line_end() + l2;
    let head = message_head(status, content_type, body);
    let text = message_text(status, content_type, body);
    assert("\r\n"@ =~= line_end());
    assert(head =~= l0 + line_end() + rest);
    assert(text =~= head + head_end() + body);

    // no line holds a line feed
    lemma_status_text(status);
    lemma_decimal_digits_are_digits(n);
    assert(free_of(l0, '\n')) by {
        assert forall|i: int| 0 <= i < l0.len() implies #[trigger] l0[i] != '\n' by {
            if i >= 9 {
                assert(l0[i] == status.text()[i - 9]);
            }
        }
    }
    assert(free_of(l1, '\n')) by {
        assert forall|i: int| 0 <= i < l1.len() implies #[trigger] l1[i] != '\n' by {
            if i >= 16 {
                assert(l1[i] == d[i - 16]);
                assert(is_digit(d[i - 16]));
            }
        }
    }
    assert(free_of(l2, '\n')) by {
        assert forall|i: int| 0 <= i < l2.len() implies #[trigger] l2[i] != '\n' by {
            if i >= 14 {
                assert(l2[i] == content_type[i - 14]);
            }
        }
    }

    // the head ends where the message has its first empty line
    lemma_no_empty_line_one(l2);
    assert(l2[0] == 'C');
    lemma_no_empty_line_more(l1, l2);
    assert(rest[0] == 'C');
    lemma_no_empty_line_more(l0, rest);
    lemma_blank_line_after_head(head, body);

    // the lines of the head after the status line are the two header lines
    lemma_first_line(l0, rest);
    lemma_first_line(l1, l2);
    lemma_last_line(l2);
    let header_lines = seq![l1, l2];
    assert(lines(rest) =~= header_lines);

    // the first of them gives the length
    assert(free_of("Content-Length"@, ':'));
    assert(free_of("Content-Type"@, ':'));
    lemma_header_of_line("Content-Length"@, d);
    lemma_header_of_line("Content-Type"@, content_type);
    assert(is_digit(d[0]) && is_digit(d.last()));
    lemma_trim_padded(d);
    let value = trim(seq![' '] + content_type);
    let none = Seq::<(Seq<char>, Seq<char>)>::empty();
    let one = insert_field(none, "Content-Length"@, d);
    let two = insert_field(one, "Content-Type"@, value);
    assert(header_lines.drop_last() =~= seq![l1]);
    assert(seq![l1].drop_last() =~= Seq::<Seq<char>>::empty());
    assert(header_fields(seq![l1].drop_last()) =~= none);
    assert(header_fields(seq![l1]) == one);
    assert(header_fields(header_lines) == two);
    assert(distinct_names(none));
    lemma_insert_keeps_names_distinct(none, "Content-Length"@, d);
    lemma_lookup_after_insert(none, "Content-Length"@, d, "Content-Length"@);
    assert("Content-Length"@.len() != "Content-Type"@.len());
    lemma_lookup_after_insert(one, "Content-Type"@, value, "Content-Length"@);
    assert(after_first_line(head) == rest);
    assert(lookup(two, "Content-Type"@) == Some(value));

    lemma_decimal_value_of_digits(n);
    lemma_encode_utf8_concat(head + head_end(), body);
    assert(frames(head, body, reply(status, content_type, body)));
}

/// The not-found message with the numeric status is the message that the
/// response builder makes for status 404 and plain text in UTF-8, so that
/// what holds of the one holds of the other.
pub proof fn lemma_response_error_is_a_message(body: Seq<char>)
    ensures
        not_found_text(body) == message_text(
            StatusCode::NotFound,
            "text/plain; charset=utf-8"@,
            body,
        ),
        well_framed(encode_utf8(not_found_text(body))),
{
    reveal_with_fuel(decimal_digits, 3);
    reveal_strlit("HTTP/1.1 ");
    reveal_strlit(" Not Found\r\n");
    reveal_strlit("Not Found");
    reveal_strlit("\r\n");
    reveal_strlit("text/plain; charset=utf-8");
    let content_type = "text/plain; charset=utf-8"@;
    assert(decimal_digits(404) + " Not Found\r\n"@ =~= StatusCode::NotFound.text() + "\r\n"@);
    assert(not_found_text(body) =~= message_text(StatusCode::NotFound, content_type, body));
    assert(free_of(content_type, '\n'));
    lemma_message_is_framed(StatusCode::NotFound, content_type, body);
}

/// `s` is a word: it is not empty and holds no white space.
pub open spec fn is_word(s: Seq<char>) -> bool {
    &&& s.len() > 0
    &&& forall|i: int| 0 <= i < s.len() ==> !is_whitespace(#[trigger] s[i])
}

/// A word is the first word of what it opens, if white space or nothing
/// follows it.
proof fn lemma_first_word(w: Seq<char>, rest: Seq<char>)
    requires
        is_word(w),
        rest.len() > 0 ==> is_whitespace(rest[0]),
    ensures
        first_word(w + rest) == w,
        after_first_word(w + rest) == rest,
{
    let s = w + rest;
    assert(s =~= Seq::<char>::empty() + s);
    assert(s[0] == w[0]);
    lemma_run_stops(Seq::<char>::empty(), s, CharClass::Space);
    assert(s.skip(0) =~= s);
    lemma_run_stops(w, rest, CharClass::Visible);
    assert(s.take(w.len() as int) =~= w);
    assert(s.skip(w.len() as int) =~= rest);
}

/// The line of a header field as a client writes it: name, colon, space,
/// value.
pub open spec fn field_line(field: (Seq<char>, Seq<char>)) -> Seq<char> {
    field.0 + ": "@ + field.1
}

/// A header field that can be written on one line and read back: the name
/// is a word without a colon; the value holds no line feed, and no white
/// space at either end.
pub open spec fn is_field(field: (Seq<char>, Seq<char>)) -> bool {
    &&& is_word(field.0)
    &&& free_of(field.0, ':')
    &&& free_of(field.1, '\n')
    &&& field.1.len() > 0 ==> !is_whitespace(field.1[0]) && !is_whitespace(field.1.last())
}

/// The head of a request as a client writes it: the request line, then
/// one line for each field, with a line end between the lines.
pub open spec fn request_head(line: Seq<char>, fields: Seq<(Seq<char>, Seq<char>)>) -> Seq<char>
    decreases fields.len(),
{
    if fields.len() == 0 {
        line
    } else {
        request_head(line, fields.drop_last()) + line_end() + field_line(fields.last())
    }
}

/// A request as a client writes it: method, path and version with one
/// space between them, the header fields, an empty line, the body.
pub open spec fn request_text(
    method: Seq<char>,
    path: Seq<char>,
    version: Seq<char>,
    fields: Seq<(Seq<char>, Seq<char>)>,
    body: Seq<char>,
) -> Seq<char> {
    request_head(method + seq![' '] + path + seq![' '] + version, fields) + head_end() + body
}

/// The two characters that end a line: CR LF.
pub open spec fn line_end() -> Seq<char> {
    seq!['\r', '\n']
}

/// A run that ends within `s` ends at the same place in `s + t`.
proof fn lemma_run_within(s: Seq<char>, t: Seq<char>, k: CharClass)
    requires
        run(s, k) < s.len(),
    ensures
        run(s + t, k) == run(s, k),
{
    lemma_run(s, k);
    let n = run(s, k) as int;
    let st = s + t;
    assert forall|j: int| 0 <= j < n implies k.has(#[trigger] st[j]) by {
        assert(st[j] == s[j]);
    }
    assert(st[n] == s[n]);
    assert(is_run(st, k, n));
    lemma_run(st, k);
}

/// A line added after a text is one more line, if the text is not empty
/// and does not end with a line feed.
proof fn lemma_lines_push(s: Seq<char>, x: Seq<char>)
    requires
        s.len() > 0,
        s.last() != '\n',
        free_of(x, '\n'),
        x.len() > 0,
    ensures
        lines(s + line_end() + x) == lines(s).push(x),
    decreases s.len(),
{
    let k = CharClass::Except('\n');
    let n = run(s, k) as int;
    let tail = line_end() + x;
    let all = s + line_end() + x;
    assert(all =~= s + tail);
    lemma_run(s, k);
    if n == s.len() {
        assert(free_of(s, '\n')) by {
            assert forall|i: int| 0 <= i < s.len() implies #[trigger] s[i] != '\n' by {
                assert(k.has(s[i]));
            }
        }
        lemma_first_line(s, x);
        lemma_last_line(x);
        lemma_last_line(s);
        assert(lines(all) =~= lines(s).push(x));
    } else {
        let t = s.skip(n + 1);
        assert(n + 1 < s.len()) by {
            if n + 1 == s.len() {
                assert(s.last() == s[n]);
            }
        }
        assert(t.last() == s.last());
        lemma_run_within(s, tail, k);
        assert(all.take(n) =~= s.take(n));
        assert(first_line(all) == first_line(s));
        assert(all.skip(n + 1) =~= t + line_end() + x);
        lemma_lines_push(t, x);
        assert(lines(all) =~= seq![first_line(s)] + lines(t).push(x));
        assert(lines(s) =~= seq![first_line(s)] + lines(t));
        assert(lines(all) =~= lines(s).push(x));
    }
}

/// A line added after a text without an empty line leaves it without one,
/// if the line does not open with a carriage return.
proof fn lemma_no_empty_line_push(s: Seq<char>, x: Seq<char>)
    requires
        no_empty_line(s),
        free_of(x, '\n'),
        x.len() > 0,
        x[0] != '\r',
    ensures
        no_empty_line(s + line_end() + x),
{
    let all = s + line_end() + x;
    let n = s.len() as int;
    assert forall|i: int| 0 <= i < all.len() && #[trigger] all[i] == '\n' implies i + 1 < all.len()
        && all[i + 1] != '\r' by {
        if i < n {
            assert(all[i] == s[i]);
            assert(s[i] == '\n');
            assert(all[i + 1] == s[i + 1]);
        } else if i == n {
            assert(all[i] == '\r');
        } else if i == n + 1 {
            assert(all[i + 1] == x[0]);
        } else {
            assert(all[i] == x[i - n - 2]);
        }
    }
}

/// The line of a field holds the field.
proof fn lemma_field_line(field: (Seq<char>, Seq<char>))
    requires
        is_field(field),
    ensures
        header_of_line(field_line(field)) == Some(field),
        free_of(field_line(field), '\n'),
        field_line(field).len() > 0,
        field_line(field)[0] != '\r',
{
    reveal_strlit(": ");
    let line = field_line(field);
    lemma_header_of_line(field.0, field.1);
    if field.1.len() > 0 {
        lemma_trim_padded(field.1);
    } else {
        let padded = seq![' '] + field.1;
        assert(padded =~= seq![' '] + Seq::<char>::empty());
        lemma_run_stops(seq![' '], Seq::<char>::empty(), CharClass::Space);
        assert(trim_start(padded) =~= Seq::<char>::empty());
        assert(Seq::<char>::empty().reverse() =~= Seq::<char>::empty());
        assert(trim(padded) =~= field.1);
    }
    assert forall|i: int| 0 <= i < line.len() implies #[trigger] line[i] != '\n' by {
        if i < field.0.len() {
            assert(line[i] == field.0[i]);
            assert(!is_whitespace(field.0[i]));
        } else if i >= field.0.len() + 2 {
            assert(line[i] == field.1[i - field.0.len() - 2]);
        }
    }
    assert(line[0] == field.0[0]);
    assert(!is_whitespace(field.0[0]));
}

/// The lines of a written head are the request line and the lines of
/// the fields, and their header fields are the fields.
proof fn lemma_request_head(line: Seq<char>, fields: Seq<(Seq<char>, Seq<char>)>)
    requires
        free_of(line, '\n'),
        line.len() > 0,
        forall|i: int| 0 <= i < fields.len() ==> is_field(#[trigger] fields[i]),
        distinct_names(fields),
    ensures
        no_empty_line(request_head(line, fields)),
        request_head(line, fields).len() > 0,
        lines(request_head(line, fields)) == seq![line] + fields.map_values(
            |field: (Seq<char>, Seq<char>)| field_line(field),
        ),
        header_fields(
            fields.map_values(|field: (Seq<char>, Seq<char>)| field_line(field)),
        ) == fields,
    decreases fields.len(),
{
    let to_line = |field: (Seq<char>, Seq<char>)| field_line(field);
    let head = request_head(line, fields);
    if fields.len() == 0 {
        lemma_no_empty_line_one(line);
        lemma_last_line(line);
        assert(fields.map_values(to_line) =~= Seq::<Seq<char>>::empty());
        assert(lines(head) =~= seq![line] + fields.map_values(to_line));
        assert(header_fields(Seq::<Seq<char>>::empty()) =~= fields);
    } else {
        let before = fields.drop_last();
        let last = fields.last();
        let x = field_line(last);
        let prior = request_head(line, before);
        assert forall|i: int| 0 <= i < before.len() implies is_field(#[trigger] before[i]) by {
            assert(before[i] == fields[i]);
        }
        assert(distinct_names(before)) by {
            assert forall|i: int, j: int| 0 <= i < j < before.len() implies (#[trigger] before[i]).0
                != (#[trigger] before[j]).0 by {
                assert(before[i] == fields[i]);
                assert(before[j] == fields[j]);
            }
        }
        lemma_request_head(line, before);
        assert(is_field(last));
        lemma_field_line(last);
        lemma_no_empty_line_push(prior, x);
        assert(prior.last() != '\n');
        lemma_lines_push(prior, x);
        assert(fields.map_values(to_line) =~= before.map_values(to_line).push(x));
        assert(lines(head) =~= seq![line] + fields.map_values(to_line));

        let field_lines = fields.map_values(to_line);
        assert(field_lines.drop_last() =~= before.map_values(to_line));
        assert(field_lines.last() == x);
        assert(!has_name(before, last.0)) by {
            if has_name(before, last.0) {
                let p = position(before, last.0);
                assert(before[p] == fields[p]);
                assert(fields[p].0 != fields[fields.len() - 1].0);
            }
        }
        assert(header_fields(field_lines) == before.push(last));
        assert(before.push(last) =~= fields);
    }
}

/// The parser reads a request as it was written: of the text that a
/// client writes for a method word, a path, a version, header fields with
/// distinct names and a body, it gives the method that the word names, the
/// path, the fields in their order, and the bytes of the body.
pub proof fn lemma_parse_reads_what_was_written(
    method: Seq<char>,
    path: Seq<char>,
    version: Seq<char>,
    fields: Seq<(Seq<char>, Seq<char>)>,
    body: Seq<char>,
)
    requires
        is_word(method),
        is_word(path),
        is_word(version),
        forall|i: int| 0 <= i < fields.len() ==> is_field(#[trigger] fields[i]),
        distinct_names(fields),
    ensures
        parse(request_text(method, path, version, fields, body)) == (RequestView {
            method: method_of(method),
            path: path,
            headers: fields,
            body: encode_utf8(body),
        }),
{
    let line = method + seq![' '] + path + seq![' '] + version;
    let head = request_head(line, fields);
    let text = request_text(method, path, version, fields, body);
    let to_line = |field: (Seq<char>, Seq<char>)| field_line(field);
    assert forall|i: int| 0 <= i < line.len() implies #[trigger] line[i] != '\n' by {
        if i < method.len() {
            assert(line[i] == method[i]);
        } else if i == method.len() {
        } else if i < method.len() + 1 + path.len() {
            assert(line[i] == path[i - method.len() - 1]);
        } else if i == method.len() + 1 + path.len() {
        } else {
            assert(line[i] == version[i - method.len() - path.len() - 2]);
        }
    }
    lemma_request_head(line, fields);
    lemma_blank_line_after_head(head, body);

    // the first line of the head is the request line, the others are the fields
    let all = seq![line] + fields.map_values(to_line);
    assert(lines(head) == seq![first_line(head)] + lines(after_first_line(head)));
    assert(first_line(head) == all[0]);
    assert(lines(after_first_line(head)) =~= all.skip(1));
    assert(all.skip(1) =~= fields.map_values(to_line));

    // the first two words of the request line are the method and the path
    let after_method = seq![' '] + path + seq![' '] + version;
    assert(line =~= method + after_method);
    lemma_first_word(method, after_method);
    let padded_version = seq![' '] + version;
    let from_path = path + padded_version;
    assert(after_method =~= seq![' '] + from_path);
    assert(from_path[0] == path[0]);
    lemma_run_stops(seq![' '], from_path, CharClass::Space);
    assert(after_method.skip(1) =~= from_path);
    lemma_run_stops(path, padded_version, CharClass::Visible);
    assert(from_path.take(path.len() as int) =~= path);
    assert(first_word(after_method) == path);
    reveal_with_fuel(word, 2);
    assert(word(line, 1) == path);
}

/// The header fields of any lines hold each name once.
pub proof fn lemma_header_fields_are_distinct(lines: Seq<Seq<char>>)
    ensures
        distinct_names(header_fields(lines)),
    decreases lines.len(),
{
    if lines.len() > 0 {
        lemma_header_fields_are_distinct(lines.drop_last());
        match header_of_line(lines.last()) {
            Some(field) => {
                lemma_insert_keeps_names_distinct(
                    header_fields(lines.drop_last()),
                    field.0,
                    field.1,
                );
            },
            None => {},
        }
    }
}

/// The last value wins: after a line that holds a field, the name of the
/// field has the value of that line, whatever the lines before it held,
/// and every other name has the value it had. A line that holds no field
/// changes nothing.
pub proof fn lemma_last_value_wins(lines: Seq<Seq<char>>, line: Seq<char>, other: Seq<char>)
    ensures
        header_of_line(line) matches Some(field) ==> {
            &&& lookup(header_fields(lines.push(line)), field.0) == Some(field.1)
            &&& other != field.0 ==> lookup(header_fields(lines.push(line)), other) == lookup(
                header_fields(lines),
                other,
            )
        },
        header_of_line(line) is None ==> header_fields(lines.push(line)) == header_fields(lines),
{
    assert(lines.push(line).drop_last() =~= lines);
    lemma_header_fields_are_distinct(lines);
    match header_of_line(line) {
        Some(field) => {
            lemma_lookup_after_insert(header_fields(lines), field.0, field.1, other);
        },
        None => {},
    }
}

/// The content types under which the library answers.
pub open spec fn is_served_type(content_type: Seq<char>) -> bool {
    ||| content_type == "text/html"@
    ||| content_type == "application/javascript"@
    ||| content_type == "text/plain"@
    ||| content_type == "application/json"@
}

/// A content type of the library holds no line feed, and no white space at
/// either end.
pub proof fn lemma_served_type(content_type: Seq<char>)
    requires
        is_served_type(content_type),
    ensures
        free_of(content_type, '\n'),
        trim(seq![' '] + content_type) == content_type,
{
    reveal_strlit("text/html");
    reveal_strlit("application/javascript");
    reveal_strlit("text/plain");
    reveal_strlit("application/json");
    lemma_trim_padded(content_type);
}

/// Every response that a step hands out is framed: its `Content-Length`
/// field is the numeral of the number of bytes of the body that follows the
/// empty line.
pub proof fn lemma_every_response_is_framed(state: Connection, event: EventView)
    ensures
        next_step(state, event).1 matches ActionView::Respond(bytes) ==> well_framed(bytes),
{
    assert forall|status: StatusCode, content_type: Seq<char>, body: Seq<char>|
        is_served_type(content_type) implies well_framed(
        #[trigger] reply(status, content_type, body),
    ) by {
        lemma_served_type(content_type);
        lemma_message_is_framed(status, content_type, body);
    }
    assert forall|asset: Asset| is_served_type(#[trigger] asset.media_type()) by {}
    assert(is_served_type("text/plain"@));
    assert(is_served_type("application/json"@));
}

/// The status line of each status, without its line end, in one piece.
pub open spec fn status_line_text(status: StatusCode) -> Seq<char> {
    match status {
        StatusCode::Success => "HTTP/1.1 200 OK"@,
        StatusCode::Created => "HTTP/1.1 201 Created"@,
        StatusCode::BadRequest => "HTTP/1.1 400 Bad Request"@,
        StatusCode::NotFound => "HTTP/1.1 404 Not Found"@,
        StatusCode::InternalServerError => "HTTP/1.1 500 Internal Server Error"@,
    }
}

/// The status line is made of the protocol version, the code and the
/// reason phrase.
pub proof fn lemma_status_line_text(status: StatusCode)
    ensures
        "HTTP/1.1 "@ + status.text() == status_line_text(status),
{
    reveal_with_fuel(decimal_digits, 3);
    reveal_strlit("HTTP/1.1 ");
    match status {
        StatusCode::Success => {
            reveal_strlit("OK");
            reveal_strlit("HTTP/1.1 200 OK");
            assert("HTTP/1.1 "@ + status.text() =~= "HTTP/1.1 200 OK"@);
        },
        StatusCode::Created => {
            reveal_strlit("Created");
            reveal_strlit("HTTP/1.1 201 Created");
            assert("HTTP/1.1 "@ + status.text() =~= "HTTP/1.1 201 Created"@);
        },
        StatusCode::BadRequest => {
            reveal_strlit("Bad Request");
            reveal_strlit("HTTP/1.1 400 Bad Request");
            assert("HTTP/1.1 "@ + status.text() =~= "HTTP/1.1 400 Bad Request"@);
        },
        StatusCode::NotFound => {
            reveal_strlit("Not Found");
            reveal_strlit("HTTP/1.1 404 Not Found");
            assert("HTTP/1.1 "@ + status.text() =~= "HTTP/1.1 404 Not Found"@);
        },
        StatusCode::InternalServerError => {
            reveal_strlit("Internal Server Error");
            reveal_strlit("HTTP/1.1 500 Internal Server Error");
            assert("HTTP/1.1 "@ + status.text() =~= "HTTP/1.1 500 Internal Server Error"@);
        },
    }
}

/// A `GET` of `/` is answered with the home page: once the file is read,
/// with status 200 and content type `text/html`, whatever the file holds.
pub proof fn lemma_home_page(request: RequestView, content: Seq<char>)
    requires
        request.method == RequestMethod::GET,
        request.path == "/"@,
    ensures
        first_step(request) == (
            Connection::WaitingForAsset(Asset::Home),
            ActionView::ReadAsset(Asset::Home),
        ),
        next_step(Connection::WaitingForAsset(Asset::Home), EventView::AssetRead(Some(content)))
            == (
            Connection::Closed,
            ActionView::Respond(reply(StatusCode::Success, "text/html"@, content)),
        ),
        StatusCode::Success.code() == 200,
        first_line(message_head(StatusCode::Success, "text/html"@, content)) == "HTTP/1.1 200 OK"@,
        lookup(
            header_fields(
                lines(after_first_line(message_head(StatusCode::Success, "text/html"@, content))),
            ),
            "Content-Type"@,
        ) == Some("text/html"@),
        body_block(message_text(StatusCode::Success, "text/html"@, content)) == content,
{
    lemma_served_type("text/html"@);
    lemma_message_is_framed(StatusCode::Success, "text/html"@, content);
    lemma_status_line_text(StatusCode::Success);
}

/// The paths that a `GET` finds a page or a script under.
pub open spec fn is_registered_page(path: Seq<char>) -> bool {
    ||| path == "/"@
    ||| path == "/calculator"@
    ||| path == "/create-people"@
    ||| path == "/people.js"@
    ||| path == "/calc.js"@
}

/// A `GET` of any path that is not registered is answered at once, with
/// status 404 and the body `page not found!`.
pub proof fn lemma_unregistered_page(request: RequestView)
    requires
        request.method == RequestMethod::GET,
        !is_registered_page(request.path),
    ensures
        first_step(request) == (
            Connection::Closed,
            ActionView::Respond(reply(StatusCode::NotFound, "text/plain"@, "page not found!"@)),
        ),
        StatusCode::NotFound.code() == 404,
        first_line(message_head(StatusCode::NotFound, "text/plain"@, "page not found!"@))
            == "HTTP/1.1 404 Not Found"@,
        body_block(message_text(StatusCode::NotFound, "text/plain"@, "page not found!"@))
            == "page not found!"@,
{
    lemma_served_type("text/plain"@);
    lemma_message_is_framed(StatusCode::NotFound, "text/plain"@, "page not found!"@);
    lemma_status_line_text(StatusCode::NotFound);
}

/// A request that no route is registered for is answered at once, and with
/// an error status: whatever the method and the path.
pub proof fn lemma_unrouted_request_is_refused(request: RequestView)
    requires
        select(request.method, request.path) == Handler::PageNotFound || select(
            request.method,
            request.path,
        ) == Handler::RouteNotFound || select(request.method, request.path)
            == Handler::Unsupported,
    ensures
        first_step(request).0 == Connection::Closed,
        exists|body: Seq<char>|
            first_step(request).1 == ActionView::Respond(
                #[trigger] reply(StatusCode::NotFound, "text/plain"@, body),
            ),
        StatusCode::NotFound.is_error(),
{
    if select(request.method, request.path) == Handler::PageNotFound {
        assert(first_step(request).1 == ActionView::Respond(
            reply(StatusCode::NotFound, "text/plain"@, "page not found!"@),
        ));
    } else {
        assert(first_step(request).1 == ActionView::Respond(
            reply(StatusCode::NotFound, "text/plain"@, "route not found!"@),
        ));
    }
}

/// Every connection gets one response, and soon: a step of an open
/// connection either hands out the response and closes the connection, or
/// asks for work and leaves fewer steps to take; a closed connection hands
/// out nothing more.
pub proof fn lemma_one_response(state: Connection, event: EventView)
    ensures
        ({
            let (next, action) = next_step(state, event);
            &&& state != Connection::Closed ==> next.steps_left() < state.steps_left()
            &&& state != Connection::Closed ==> (action is Respond <==> next == Connection::Closed)
            &&& state == Connection::Closed ==> next == Connection::Closed && action is Hangup
            &&& action is Hangup ==> state == Connection::Closed
        }),
{
}

} // verus!
