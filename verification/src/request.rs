//! The wire parser: from the text of one read to a request.
//!
//! The grammar is stated on character sequences. The text splits at the
//! first empty line into a header block and a body block; the first line of
//! the header block is the request line, whose first two words are the method
//! and the path; each further line with a colon after a non-empty name is a
//! header field. Nothing is rejected: text that fits no rule leaves the
//! field it would have filled empty.

use vstd::prelude::*;
use vstd::slice::slice_subrange;
use vstd::string::StrSliceExecFns;
use vstd::utf8::{decode_utf8, encode_utf8, valid_utf8};
use crate::headers::{insert_field, HeaderMap};
use crate::server::{method_of, RequestMethod};
use crate::text::{
    chars_of,
    run,
    run_length,
    split_first_word,
    string_of,
    trim,
    trimmed,
    word,
    CharClass,
};

verus! {

/// The four characters of an empty line, CR LF CR LF, stand in `s` at `i`.
pub open spec fn blank_line_at(s: Seq<char>, i: int) -> bool {
    &&& 0 <= i
    &&& i + 4 <= s.len()
    &&& s[i] == '\r'
    &&& s[i + 1] == '\n'
    &&& s[i + 2] == '\r'
    &&& s[i + 3] == '\n'
}

/// An empty line stands at `i`, and none before it.
pub open spec fn is_first_blank_line(s: Seq<char>, i: int) -> bool {
    &&& blank_line_at(s, i)
    &&& forall|j: int| 0 <= j < i ==> !blank_line_at(s, j)
}

/// Where the first empty line of `s` starts, if `s` has one.
pub open spec fn blank_line(s: Seq<char>) -> Option<int> {
    if exists|i: int| is_first_blank_line(s, i) {
        Some(choose|i: int| is_first_blank_line(s, i))
    } else {
        None
    }
}

/// What stands before the first empty line; all of `s` if it has none.
pub open spec fn head_block(s: Seq<char>) -> Seq<char> {
    match blank_line(s) {
        Some(i) => s.take(i),
        None => s,
    }
}

/// What follows the first empty line; nothing if `s` has none.
pub open spec fn body_block(s: Seq<char>) -> Seq<char> {
    match blank_line(s) {
        Some(i) => s.skip(i + 4),
        None => Seq::empty(),
    }
}

/// `line` without the carriage return that may close it.
pub open spec fn strip_cr(line: Seq<char>) -> Seq<char> {
    if line.len() > 0 && line.last() == '\r' {
        line.drop_last()
    } else {
        line
    }
}

/// The first line of `s`: what stands before the first line feed, less a
/// carriage return just before it; all of `s` if it holds no line feed.
pub open spec fn first_line(s: Seq<char>) -> Seq<char> {
    let n = run(s, CharClass::Except('\n'));
    if n < s.len() {
        strip_cr(s.take(n as int))
    } else {
        s
    }
}

/// What follows the first line feed of `s`; nothing if it holds none.
pub open spec fn after_first_line(s: Seq<char>) -> Seq<char> {
    let n = run(s, CharClass::Except('\n'));
    if n < s.len() {
        s.skip(n as int + 1)
    } else {
        Seq::empty()
    }
}

/// The lines of `s`, in order. A line ends at a line feed or at the end of
/// `s`; the empty text has no line.
pub open spec fn lines(s: Seq<char>) -> Seq<Seq<char>>
    decreases s.len(),
{
    if s.len() == 0 {
        Seq::empty()
    } else {
        seq![first_line(s)] + lines(after_first_line(s))
    }
}

/// The header field that `line` holds: the name is what stands before the
/// first colon, as received; the value is what follows that colon, without
/// the white space around it. A line without a colon, or with nothing before
/// it, holds no field.
pub open spec fn header_of_line(line: Seq<char>) -> Option<(Seq<char>, Seq<char>)> {
    let n = run(line, CharClass::Except(':'));
    if 0 < n < line.len() {
        Some((line.take(n as int), trim(line.skip(n as int + 1))))
    } else {
        None
    }
}

/// The header fields of `lines`, taken in order: a later line with the same
/// name replaces the value; a line that holds no field is passed over.
pub open spec fn header_fields(lines: Seq<Seq<char>>) -> Seq<(Seq<char>, Seq<char>)>
    decreases lines.len(),
{
    if lines.len() == 0 {
        Seq::empty()
    } else {
        let before = header_fields(lines.drop_last());
        match header_of_line(lines.last()) {
            Some(field) => insert_field(before, field.0, field.1),
            None => before,
        }
    }
}

/// A request as the contracts see it.
pub struct RequestView {
    pub method: RequestMethod,
    pub path: Seq<char>,
    pub headers: Seq<(Seq<char>, Seq<char>)>,
    pub body: Seq<u8>,
}

/// The request that `text` holds.
pub open spec fn parse(text: Seq<char>) -> RequestView {
    let head = head_block(text);
    let line = first_line(head);
    RequestView {
        method: method_of(word(line, 0)),
        path: word(line, 1),
        headers: header_fields(lines(after_first_line(head))),
        body: encode_utf8(body_block(text)),
    }
}

/// One parsed request: the method and the path of the request line, the
/// header fields, and the bytes of the body.
#[derive(Debug)]
pub struct Request {
    pub method: RequestMethod,
    pub path: String,
    pub headers: HeaderMap,
    pub body: Vec<u8>,
}

impl View for Request {
    type V = RequestView;

    open spec fn view(&self) -> RequestView {
        RequestView {
            method: self.method,
            path: self.path@,
            headers: self.headers@,
            body: self.body@,
        }
    }
}

/// Where the first empty line of `s` starts.
pub fn find_blank_line(s: &[char]) -> (found: Option<usize>)
    ensures
        found is Some == blank_line(s@) is Some,
        found matches Some(i) ==> blank_line(s@) == Some(i as int) && i + 4 <= s@.len(),
{
    let len = s.len();
    let mut i: usize = 0;
    while i < len && len - i >= 4
        invariant
            len == s@.len(),
            i <= len,
            forall|j: int| 0 <= j < i ==> !blank_line_at(s@, j),
        decreases len - i,
    {
        if s[i] == '\r' && s[i + 1] == '\n' && s[i + 2] == '\r' && s[i + 3] == '\n' {
            proof {
                assert(is_first_blank_line(s@, i as int));
                let c = choose|k: int| is_first_blank_line(s@, k);
                if c < i {
                    assert(!blank_line_at(s@, c));
                } else if i < c {
                    assert(!blank_line_at(s@, i as int));
                }
            }
            return Some(i);
        }
        i += 1;
    }
    proof {
        assert forall|k: int| !is_first_blank_line(s@, k) by {
            if blank_line_at(s@, k) {
                assert(k < i);
            }
        }
    }
    None
}

/// Splits `s` at its first empty line into header block and body block.
pub fn split_blocks(s: &[char]) -> (blocks: (&[char], &[char]))
    ensures
        blocks.0@ == head_block(s@),
        blocks.1@ == body_block(s@),
{
    let len = s.len();
    match find_blank_line(s) {
        Some(i) => (slice_subrange(s, 0, i), slice_subrange(s, i + 4, len)),
        None => {
            let body = slice_subrange(s, 0, 0);
            assert(body@ =~= Seq::<char>::empty());
            (s, body)
        },
    }
}

/// Splits `s` into its first line and what follows that line.
pub fn split_first_line(s: &[char]) -> (parts: (&[char], &[char]))
    ensures
        parts.0@ == first_line(s@),
        parts.1@ == after_first_line(s@),
        s@.len() > 0 ==> parts.1@.len() < s@.len(),
{
    let n = run_length(s, CharClass::Except('\n'));
    if n < s.len() {
        let rest = slice_subrange(s, n + 1, s.len());
        if n > 0 && s[n - 1] == '\r' {
            let line = slice_subrange(s, 0, n - 1);
            assert(line@ =~= strip_cr(s@.take(n as int)));
            (line, rest)
        } else {
            (slice_subrange(s, 0, n), rest)
        }
    } else {
        let rest = slice_subrange(s, 0, 0);
        assert(rest@ =~= Seq::<char>::empty());
        (s, rest)
    }
}

/// The header field that `line` holds, if it holds one.
pub fn parse_header_line(line: &[char]) -> (field: Option<(String, String)>)
    ensures
        field is Some == header_of_line(line@) is Some,
        field matches Some(f) ==> header_of_line(line@) == Some((f.0@, f.1@)),
{
    let n = run_length(line, CharClass::Except(':'));
    if 0 < n && n < line.len() {
        let name = string_of(slice_subrange(line, 0, n));
        let value = string_of(trimmed(slice_subrange(line, n + 1, line.len())));
        Some((name, value))
    } else {
        None
    }
}

/// The header fields of the lines of `block`.
pub fn parse_header_block(block: &[char]) -> (headers: HeaderMap)
    ensures
        headers@ == header_fields(lines(block@)),
{
    let mut headers = HeaderMap::new();
    let mut rest = block;
    let ghost mut done: Seq<Seq<char>> = Seq::empty();
    assert(done + lines(rest@) =~= lines(block@));
    while rest.len() > 0
        invariant
            lines(block@) == done + lines(rest@),
            headers@ == header_fields(done),
        decreases rest@.len(),
    {
        let (line, after) = split_first_line(rest);
        proof {
            let next = done.push(line@);
            assert(next + lines(after@) =~= done + lines(rest@));
            assert(next.drop_last() =~= done);
            done = next;
        }
        match parse_header_line(line) {
            Some((name, value)) => {
                headers.insert(name, value);
            },
            None => {},
        }
        rest = after;
    }
    assert(done + lines(rest@) =~= done);
    headers
}

/// Parses the text of a request.
pub fn parse_request_text(text: &str) -> (request: Request)
    ensures
        request@ == parse(text@),
{
    let chars = chars_of(text);
    let (head, body) = split_blocks(chars.as_slice());
    let (line, header_block) = split_first_line(head);
    let (method, after_method) = split_first_word(line);
    let (path, _) = split_first_word(after_method);
    assert(path@ == word(line@, 1)) by {
        reveal_with_fuel(word, 2);
    }
    let method = RequestMethod::parse_request_method(string_of(method).as_str());
    Request {
        method,
        path: string_of(path),
        headers: parse_header_block(header_block),
        body: string_of(body).as_str().as_bytes_vec(),
    }
}

/// The text that lossy UTF-8 decoding makes of `bytes`: the text that
/// `bytes` encodes where they are valid UTF-8, and else that text with
/// U+FFFD in place of each part that is not.
pub uninterp spec fn lossy_utf8(bytes: Seq<u8>) -> Seq<char>;

/// `String::from_utf8_lossy`, made an owned string: the lossy decoding of
/// `bytes`, which on valid UTF-8 is plain decoding. What it puts in place of
/// invalid parts is not stated here.
#[verifier::external_body]
fn decode_lossy(bytes: &[u8]) -> (text: String)
    ensures
        text@ == lossy_utf8(bytes@),
        valid_utf8(bytes@) ==> text@ == decode_utf8(bytes@),
{
    String::from_utf8_lossy(bytes).into_owned()
}

/// Parses the bytes of one read: decodes them as UTF-8, lossily, and parses
/// the text.
pub fn parse_request(buffer: &[u8]) -> (request: Request)
    ensures
        request@ == parse(lossy_utf8(buffer@)),
        valid_utf8(buffer@) ==> request@ == parse(decode_utf8(buffer@)),
{
    let text = decode_lossy(buffer);
    parse_request_text(text.as_str())
}

} // verus!
