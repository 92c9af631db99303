use http_server::headers::HeaderMap;
use http_server::request::{
    find_blank_line, parse_header_block, parse_header_line, parse_request, parse_request_text,
    split_blocks, split_first_line,
};
use http_server::server::RequestMethod;

fn chars(s: &str) -> Vec<char> {
    s.chars().collect()
}

fn text(s: &[char]) -> String {
    s.iter().collect()
}

fn entries(map: &HeaderMap) -> Vec<(String, String)> {
    (0..map.len()).map(|i| (map.name_at(i).clone(), map.value_at(i).clone())).collect()
}

fn pair(name: &str, value: &str) -> (String, String) {
    (name.to_string(), value.to_string())
}

#[test]
fn find_blank_line_finds_the_first_one() {
    assert_eq!(find_blank_line(&chars("a\r\n\r\nb\r\n\r\nc")), Some(1));
    assert_eq!(find_blank_line(&chars("\r\n\r\n")), Some(0));
    assert_eq!(find_blank_line(&chars("a\r\nb\r\n")), None);
    assert_eq!(find_blank_line(&chars("a\n\nb")), None);
    assert_eq!(find_blank_line(&chars("\r\n\r")), None);
    assert_eq!(find_blank_line(&chars("")), None);
    assert_eq!(find_blank_line(&chars("a\r\r\n\r\nb")), Some(2));
}

#[test]
fn split_blocks_splits_at_the_first_empty_line_only() {
    let buffer = chars("head\r\nmore\r\n\r\nbody\r\n\r\nrest");
    let (head, body) = split_blocks(&buffer);
    assert_eq!(text(head), "head\r\nmore");
    assert_eq!(text(body), "body\r\n\r\nrest");
}

#[test]
fn split_blocks_without_an_empty_line_is_all_head() {
    let buffer = chars("GET / HTTP/1.1\r\nHost: x\r\n");
    let (head, body) = split_blocks(&buffer);
    assert_eq!(text(head), "GET / HTTP/1.1\r\nHost: x\r\n");
    assert_eq!(text(body), "");
}

#[test]
fn split_first_line_ends_the_line_at_the_line_feed() {
    let block = chars("one\r\ntwo\nthree");
    let (line, rest) = split_first_line(&block);
    assert_eq!(text(line), "one");
    assert_eq!(text(rest), "two\nthree");
    let (line, rest) = split_first_line(rest);
    assert_eq!(text(line), "two");
    assert_eq!(text(rest), "three");
    let (line, rest) = split_first_line(rest);
    assert_eq!(text(line), "three");
    assert_eq!(text(rest), "");
}

#[test]
fn split_first_line_keeps_a_carriage_return_that_no_line_feed_follows() {
    let block = chars("one\r");
    let (line, rest) = split_first_line(&block);
    assert_eq!(text(line), "one\r");
    assert_eq!(text(rest), "");
    let block = chars("a\rb\r\r\nc");
    let (line, rest) = split_first_line(&block);
    assert_eq!(text(line), "a\rb\r");
    assert_eq!(text(rest), "c");
}

#[test]
fn split_first_line_walks_the_lines_that_std_finds() {
    for s in ["", "a", "a\n", "a\r\n", "\n", "\r\n\r\n", "a\nb\r\nc\r", "x\r\n\ny\n"] {
        let block = chars(s);
        let mut rest: &[char] = &block;
        let mut lines: Vec<String> = Vec::new();
        while !rest.is_empty() {
            let (line, after) = split_first_line(rest);
            lines.push(text(line));
            rest = after;
        }
        let expected: Vec<String> = s.lines().map(|l| l.to_string()).collect();
        assert_eq!(lines, expected, "{:?}", s);
    }
}

#[test]
fn parse_header_line_splits_at_the_first_colon_and_trims_the_value() {
    assert_eq!(parse_header_line(&chars("Host: localhost:8080")), Some(pair("Host", "localhost:8080")));
    assert_eq!(parse_header_line(&chars("Accept:\t text/html \r")), Some(pair("Accept", "text/html")));
    assert_eq!(parse_header_line(&chars("X-Empty:")), Some(pair("X-Empty", "")));
    assert_eq!(parse_header_line(&chars("X-Empty: ")), Some(pair("X-Empty", "")));
    assert_eq!(parse_header_line(&chars("Spaced Name : v")), Some(pair("Spaced Name ", "v")));
}

#[test]
fn parse_header_line_passes_over_malformed_lines() {
    assert_eq!(parse_header_line(&chars("no colon here")), None);
    assert_eq!(parse_header_line(&chars(": no name")), None);
    assert_eq!(parse_header_line(&chars("")), None);
}

#[test]
fn parse_header_block_keeps_order_and_lets_the_last_value_win() {
    let block = chars("Host: a\r\nbroken line\r\nAccept: */*\r\nHost: b\r\n: nameless\r\nContent-Length: 2");
    let headers = parse_header_block(&block);
    assert_eq!(
        entries(&headers),
        vec![pair("Host", "b"), pair("Accept", "*/*"), pair("Content-Length", "2")]
    );
}

#[test]
fn parse_header_block_of_nothing_is_empty() {
    assert_eq!(parse_header_block(&chars("")).len(), 0);
}

#[test]
fn parse_request_text_reads_method_path_headers_and_body() {
    let request = parse_request_text(
        "POST /calculator HTTP/1.1\r\nHost: localhost\r\nContent-Type: application/json\r\n\r\n{\"operation\":\"sum\"}",
    );
    assert_eq!(request.method, RequestMethod::POST);
    assert_eq!(request.path, "/calculator");
    assert_eq!(
        entries(&request.headers),
        vec![pair("Host", "localhost"), pair("Content-Type", "application/json")]
    );
    assert_eq!(request.body, b"{\"operation\":\"sum\"}".to_vec());
}

#[test]
fn parse_request_text_keeps_everything_after_the_first_empty_line_as_body() {
    let request = parse_request_text("POST /x HTTP/1.1\r\n\r\n one\r\n\r\ntwo \r\n");
    assert_eq!(request.body, b" one\r\n\r\ntwo \r\n".to_vec());
}

#[test]
fn parse_request_text_does_not_decode_the_path() {
    let request = parse_request_text("GET /a%20b?x=1 HTTP/1.1\r\n\r\n");
    assert_eq!(request.method, RequestMethod::GET);
    assert_eq!(request.path, "/a%20b?x=1");
}

#[test]
fn parse_request_text_without_an_empty_line_has_an_empty_body() {
    let request = parse_request_text("GET / HTTP/1.1\r\nHost: x\r\n");
    assert_eq!(request.method, RequestMethod::GET);
    assert_eq!(request.path, "/");
    assert_eq!(entries(&request.headers), vec![pair("Host", "x")]);
    assert!(request.body.is_empty());
}

#[test]
fn parse_request_text_of_a_malformed_request_line_leaves_fields_empty() {
    let request = parse_request_text("");
    assert_eq!(request.method, RequestMethod::Invalid);
    assert_eq!(request.path, "");
    assert_eq!(request.headers.len(), 0);
    assert!(request.body.is_empty());

    let request = parse_request_text("GET\r\n\r\n");
    assert_eq!(request.method, RequestMethod::GET);
    assert_eq!(request.path, "");

    let request = parse_request_text("\r\n\r\nbody");
    assert_eq!(request.method, RequestMethod::Invalid);
    assert_eq!(request.path, "");
    assert_eq!(request.body, b"body".to_vec());

    let request = parse_request_text("get / HTTP/1.1\r\n\r\n");
    assert_eq!(request.method, RequestMethod::Invalid);
    assert_eq!(request.path, "/");
}

#[test]
fn parse_request_text_takes_any_white_space_between_the_words() {
    let request = parse_request_text(" \tDELETE \t /thing\u{a0}HTTP/1.1\r\n\r\n");
    assert_eq!(request.method, RequestMethod::DELETE);
    assert_eq!(request.path, "/thing");
}

#[test]
fn parse_request_decodes_valid_bytes_as_they_are() {
    let request = parse_request("PUT /caf\u{e9} HTTP/1.1\r\nX: \u{4e2d}\r\n\r\n\u{1f600}".as_bytes());
    assert_eq!(request.method, RequestMethod::PUT);
    assert_eq!(request.path, "/caf\u{e9}");
    assert_eq!(entries(&request.headers), vec![pair("X", "\u{4e2d}")]);
    assert_eq!(request.body, "\u{1f600}".as_bytes().to_vec());
}

#[test]
fn parse_request_replaces_bytes_that_are_not_utf8() {
    let request = parse_request(b"GET /a\xffb HTTP/1.1\r\nX: \xc3\r\n\r\n\xf0\x9f");
    assert_eq!(request.method, RequestMethod::GET);
    assert_eq!(request.path, "/a\u{fffd}b");
    assert_eq!(entries(&request.headers), vec![pair("X", "\u{fffd}")]);
    assert_eq!(request.body, "\u{fffd}".as_bytes().to_vec());
}

#[test]
fn parse_request_of_arbitrary_bytes_gives_some_request() {
    let request = parse_request(&[0u8, 159, 146, 150, 13, 10, 13, 10, 255]);
    assert_eq!(request.method, RequestMethod::Invalid);
    assert_eq!(request.body, "\u{fffd}".as_bytes().to_vec());
}
