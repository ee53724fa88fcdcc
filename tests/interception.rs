use heimdall::{append_chunk, decode_utf8_text, fill_buffer, needs_read, push_decimal};
use heimdall::{Direction, HeimdallRoot};

fn headers(pairs: &[(&str, &str)]) -> Vec<(String, String)> {
    pairs.iter().map(|(n, v)| (n.to_string(), v.to_string())).collect()
}

#[test]
fn request_headers_logged_in_order() {
    let root = HeimdallRoot::default();
    let ex = root.create_http_context(7);
    let seen = ex.on_http_request_headers(&headers(&[("host", "a.com"), ("x-id", "42")]));
    assert_eq!(
        seen.logs,
        vec!["#request_header 7 -> host: a.com".to_string(), "#request_header 7 -> x-id: 42".to_string()]
    );
    assert_eq!(seen.property, "wasm_process_req_body");
}

#[test]
fn response_headers_logged_with_arrow_back() {
    let ex = HeimdallRoot::default().create_http_context(12);
    let seen = ex.on_http_response_headers(&headers(&[("content-type", "text/plain")]));
    assert_eq!(seen.logs, vec!["#response_header 12 <- content-type: text/plain".to_string()]);
    assert_eq!(seen.property, "wasm_process_resp_body");
}

#[test]
fn no_headers_no_lines() {
    let ex = HeimdallRoot::default().create_http_context(1);
    let seen = ex.on_http_request_headers(&Vec::new());
    assert!(seen.logs.is_empty());
    assert_eq!(seen.property, "wasm_process_req_body");
}

#[test]
fn response_body_reassembled_once() {
    let mut ex = HeimdallRoot::default().create_http_context(3);
    let first = ex.on_http_response_body(3, false, Some(b"Hel".to_vec()));
    assert_eq!(first, None);
    let last = ex.on_http_response_body(2, true, Some(b"lo".to_vec()));
    assert_eq!(last, Some("#response_body 3 -> Hello".to_string()));
    assert_eq!(ex.body_bytes(Direction::Response), b"Hello".to_vec());
    assert_eq!(ex.body_bytes(Direction::Request), Vec::<u8>::new());
}

#[test]
fn request_body_is_concatenation_of_chunks() {
    let mut ex = HeimdallRoot::default().create_http_context(4000000000);
    assert_eq!(ex.on_http_request_body(2, false, Some(b"ab".to_vec())), None);
    assert_eq!(ex.on_http_request_body(0, false, None), None);
    assert_eq!(ex.on_http_request_body(3, false, Some("cé".as_bytes().to_vec())), None);
    let last = ex.on_http_request_body(1, true, Some(b"!".to_vec()));
    assert_eq!(last, Some("#request_body 4000000000 -> abcé!".to_string()));
}

#[test]
fn utf8_split_across_chunks_decodes_whole() {
    let bytes = "é".as_bytes();
    let mut ex = HeimdallRoot::default().create_http_context(5);
    assert_eq!(ex.on_http_request_body(1, false, Some(vec![bytes[0]])), None);
    let last = ex.on_http_request_body(1, true, Some(vec![bytes[1]]));
    assert_eq!(last, Some("#request_body 5 -> é".to_string()));
}

#[test]
fn invalid_text_body_logs_nothing() {
    let mut ex = HeimdallRoot::default().create_http_context(8);
    assert_eq!(ex.on_http_request_body(2, true, Some(vec![0xff, 0xfe])), None);
    assert_eq!(ex.body_bytes(Direction::Request), vec![0xff, 0xfe]);
}

#[test]
fn empty_body_at_end_logs_empty_text() {
    let mut ex = HeimdallRoot::default().create_http_context(9);
    assert_eq!(ex.on_http_response_body(0, true, None), Some("#response_body 9 -> ".to_string()));
}

#[test]
fn empty_chunk_is_not_read_and_changes_nothing() {
    assert!(!needs_read(0));
    assert!(needs_read(1));
    let mut ex = HeimdallRoot::default().create_http_context(2);
    ex.on_http_request_body(2, false, Some(b"ok".to_vec()));
    ex.on_http_request_body(0, false, Some(b"ignored".to_vec()));
    assert_eq!(ex.body_bytes(Direction::Request), b"ok".to_vec());
    let mut dest = b"x".to_vec();
    fill_buffer(0, Some(b"yz".to_vec()), &mut dest);
    assert_eq!(dest, b"x".to_vec());
}

#[test]
fn fill_buffer_appends_what_was_read() {
    let mut dest = b"ab".to_vec();
    fill_buffer(2, Some(b"cd".to_vec()), &mut dest);
    assert_eq!(dest, b"abcd".to_vec());
    fill_buffer(5, None, &mut dest);
    assert_eq!(dest, b"abcd".to_vec());
}

#[test]
fn append_chunk_appends() {
    let mut dest = Vec::new();
    append_chunk(&mut dest, b"");
    assert!(dest.is_empty());
    append_chunk(&mut dest, b"xy");
    append_chunk(&mut dest, b"z");
    assert_eq!(dest, b"xyz".to_vec());
}

#[test]
fn decimal_rendering() {
    let mut s = String::from("n=");
    push_decimal(&mut s, 0);
    assert_eq!(s, "n=0");
    let mut s = String::new();
    push_decimal(&mut s, 42);
    assert_eq!(s, "42");
    let mut s = String::new();
    push_decimal(&mut s, u32::MAX);
    assert_eq!(s, "4294967295");
}

#[test]
fn strict_text_decoding() {
    assert_eq!(decode_utf8_text("hé".as_bytes()), Some("hé".to_string()));
    assert_eq!(decode_utf8_text(b""), Some(String::new()));
    assert_eq!(decode_utf8_text(&[0xc3]), None);
    assert_eq!(decode_utf8_text(&[0xed, 0xa0, 0x80]), None);
}

#[test]
fn context_keeps_its_id() {
    let ex = HeimdallRoot::default().create_http_context(77);
    assert_eq!(ex.context_id(), 77);
}
