use ms_executor::envelope::Header;
use ms_executor::envelope::HttpResponse;
use ms_executor::request::new_envelope;
use ms_executor::request::translate_request;
use ms_executor::request::RequestHead;
use ms_executor::request::WireHeader;
use ms_executor::response::normalize_status;
use ms_executor::response::translate_response;
use ms_executor::response::ResponseHeader;
use ms_executor::version::version_from_tag;
use ms_executor::version::version_tag;
use ms_executor::version::HttpVersion;

fn line(name: &str, value: &[u8]) -> WireHeader {
    WireHeader { name: name.to_string(), value: value.to_vec() }
}

fn head(method: &str, uri: &str, version: HttpVersion, headers: Vec<WireHeader>) -> RequestHead {
    RequestHead { method: method.to_string(), uri: uri.to_string(), version, headers }
}

fn header(key: &str, values: &[&str]) -> Header {
    Header { key: key.to_string(), values: values.iter().map(|v| v.to_string()).collect() }
}

fn sent(name: &str, value: &str) -> ResponseHeader {
    ResponseHeader { name: name.to_string(), value: value.to_string() }
}

fn reply(version: &str, status: i32, headers: Vec<Header>, body: &[u8]) -> HttpResponse {
    HttpResponse { version: version.to_string(), status, headers, body: body.to_vec() }
}

#[test]
fn version_tags_follow_the_table() {
    assert_eq!(version_tag(HttpVersion::Http09), "HTTP/0.9");
    assert_eq!(version_tag(HttpVersion::Http10), "HTTP/1.0");
    assert_eq!(version_tag(HttpVersion::Http11), "HTTP/1.1");
    assert_eq!(version_tag(HttpVersion::H2), "HTTP/2.0");
    assert_eq!(version_tag(HttpVersion::H3), "HTTP/3.0");
}

#[test]
fn unknown_version_is_tagged_as_http11() {
    assert_eq!(version_tag(HttpVersion::Unknown), "HTTP/1.1");
}

#[test]
fn tags_are_read_back_by_the_same_table() {
    assert_eq!(version_from_tag("HTTP/0.9"), HttpVersion::Http09);
    assert_eq!(version_from_tag("HTTP/1.0"), HttpVersion::Http10);
    assert_eq!(version_from_tag("HTTP/1.1"), HttpVersion::Http11);
    assert_eq!(version_from_tag("HTTP/2.0"), HttpVersion::H2);
    assert_eq!(version_from_tag("HTTP/3.0"), HttpVersion::H3);
}

#[test]
fn unrecognized_tags_are_read_as_http11() {
    assert_eq!(version_from_tag(""), HttpVersion::Http11);
    assert_eq!(version_from_tag("1.1"), HttpVersion::Http11);
    assert_eq!(version_from_tag("HTTP_2"), HttpVersion::Http11);
    assert_eq!(version_from_tag("http/2.0"), HttpVersion::Http11);
    assert_eq!(version_from_tag("HTTP/2.0 "), HttpVersion::Http11);
    assert_eq!(version_from_tag("HTTP/2"), HttpVersion::Http11);
}

#[test]
fn every_named_version_survives_its_tag() {
    let all = [
        HttpVersion::Http09,
        HttpVersion::Http10,
        HttpVersion::Http11,
        HttpVersion::H2,
        HttpVersion::H3,
    ];
    for v in all {
        assert_eq!(version_from_tag(version_tag(v)), v);
    }
}

#[test]
fn request_line_is_copied_verbatim() {
    let methods = ["GET", "POST", "PUT", "DELETE", "PATCH", "HEAD", "OPTIONS", "TRACE", "CONNECT"];
    for m in methods {
        let env = translate_request(
            head(m, "/a/b?x=1&y=%20z", HttpVersion::H2, Vec::new()),
            Vec::new(),
            "id-1".to_string(),
        );
        assert_eq!(env.method, m);
        assert_eq!(env.uri, "/a/b?x=1&y=%20z");
        assert_eq!(env.version, "HTTP/2.0");
        assert_eq!(env.id, "id-1");
        assert!(env.headers.is_empty());
        assert!(env.body.is_empty());
    }
}

#[test]
fn each_header_line_becomes_one_header_with_one_value() {
    let env = translate_request(
        head(
            "GET",
            "/",
            HttpVersion::Http11,
            vec![
                line("Accept", b"text/html"),
                line("X-Tag", b"one"),
                line("x-tag", b"two"),
                line("X-Tag", b"one"),
            ],
        ),
        Vec::new(),
        "id".to_string(),
    );
    assert_eq!(
        env.headers,
        vec![
            header("Accept", &["text/html"]),
            header("X-Tag", &["one"]),
            header("x-tag", &["two"]),
            header("X-Tag", &["one"]),
        ]
    );
}

#[test]
fn header_value_with_tab_and_space_is_kept() {
    let env = translate_request(
        head("GET", "/", HttpVersion::Http11, vec![line("a", b"x \ty~!")]),
        Vec::new(),
        "id".to_string(),
    );
    assert_eq!(env.headers, vec![header("a", &["x \ty~!"])]);
}

#[test]
fn header_value_that_is_not_visible_ascii_becomes_empty() {
    let env = translate_request(
        head(
            "GET",
            "/",
            HttpVersion::Http11,
            vec![
                line("latin", &[0x63, 0x61, 0x66, 0xe9]),
                line("utf8", "caf\u{e9}".as_bytes()),
                line("del", &[0x61, 0x7f]),
                line("nul", &[0x61, 0x00]),
                line("newline", b"a\nb"),
                line("empty", b""),
            ],
        ),
        Vec::new(),
        "id".to_string(),
    );
    assert_eq!(
        env.headers,
        vec![
            header("latin", &[""]),
            header("utf8", &[""]),
            header("del", &[""]),
            header("nul", &[""]),
            header("newline", &[""]),
            header("empty", &[""]),
        ]
    );
}

#[test]
fn request_body_reaches_the_envelope_byte_for_byte() {
    let bodies: Vec<Vec<u8>> = vec![
        Vec::new(),
        vec![0],
        vec![0, 0, 0],
        b"hello".to_vec(),
        vec![0xff, 0x00, 0x7f, 0x80, 0x0a, 0x0d, 0x00],
        (0..=255u8).collect(),
    ];
    for body in bodies {
        let env = translate_request(
            head("POST", "/upload", HttpVersion::Http11, Vec::new()),
            body.clone(),
            "id".to_string(),
        );
        assert_eq!(env.body, body);
    }
}

#[test]
fn fresh_identifier_has_the_shape_of_a_random_uuid() {
    let env = new_envelope(head("GET", "/", HttpVersion::Http11, Vec::new()), vec![1, 2, 3]);
    let id: Vec<char> = env.id.chars().collect();
    assert_eq!(id.len(), 36);
    for (i, c) in id.iter().enumerate() {
        if i == 8 || i == 13 || i == 18 || i == 23 {
            assert_eq!(*c, '-');
        } else {
            assert!(matches!(*c, '0'..='9' | 'a'..='f'));
        }
    }
    assert_eq!(id[14], '4');
    assert!(matches!(id[19], '8' | '9' | 'a' | 'b'));
    assert_eq!(env.method, "GET");
    assert_eq!(env.uri, "/");
    assert_eq!(env.version, "HTTP/1.1");
    assert_eq!(env.body, vec![1, 2, 3]);
}

#[test]
fn fresh_identifiers_differ() {
    let mut seen: Vec<String> = Vec::new();
    for _ in 0..64 {
        let env = new_envelope(head("GET", "/", HttpVersion::Http11, Vec::new()), Vec::new());
        assert!(!seen.contains(&env.id));
        seen.push(env.id);
    }
}

#[test]
fn status_200_is_kept() {
    assert_eq!(normalize_status(200), 200);
    assert_eq!(translate_response(reply("HTTP/1.1", 200, Vec::new(), b"")).status, 200);
}

#[test]
fn status_9999_and_0_become_500() {
    assert_eq!(normalize_status(9999), 500);
    assert_eq!(normalize_status(0), 500);
    assert_eq!(translate_response(reply("HTTP/1.1", 9999, Vec::new(), b"")).status, 500);
    assert_eq!(translate_response(reply("HTTP/1.1", 0, Vec::new(), b"")).status, 500);
}

#[test]
fn status_is_kept_from_100_to_599_only() {
    assert_eq!(normalize_status(100), 100);
    assert_eq!(normalize_status(599), 599);
    assert_eq!(normalize_status(404), 404);
    assert_eq!(normalize_status(99), 500);
    assert_eq!(normalize_status(600), 500);
    assert_eq!(normalize_status(999), 500);
    assert_eq!(normalize_status(-1), 500);
    assert_eq!(normalize_status(-200), 500);
    assert_eq!(normalize_status(i32::MIN), 500);
    assert_eq!(normalize_status(i32::MAX), 500);
    assert_eq!(normalize_status(65536 + 200), 500);
}

#[test]
fn status_out_of_range_keeps_headers_and_body() {
    let out = translate_response(reply("HTTP/2.0", 9999, vec![header("a", &["b"])], b"still here"));
    assert_eq!(out.status, 500);
    assert_eq!(out.version, HttpVersion::H2);
    assert_eq!(out.headers, vec![sent("a", "b")]);
    assert_eq!(out.body, b"still here".to_vec());
}

#[test]
fn response_version_is_read_from_its_tag() {
    assert_eq!(translate_response(reply("HTTP/0.9", 200, Vec::new(), b"")).version, HttpVersion::Http09);
    assert_eq!(translate_response(reply("HTTP/1.0", 200, Vec::new(), b"")).version, HttpVersion::Http10);
    assert_eq!(translate_response(reply("HTTP/1.1", 200, Vec::new(), b"")).version, HttpVersion::Http11);
    assert_eq!(translate_response(reply("HTTP/2.0", 200, Vec::new(), b"")).version, HttpVersion::H2);
    assert_eq!(translate_response(reply("HTTP/3.0", 200, Vec::new(), b"")).version, HttpVersion::H3);
    assert_eq!(translate_response(reply("1.1", 200, Vec::new(), b"")).version, HttpVersion::Http11);
    assert_eq!(translate_response(reply("HTTP_2", 200, Vec::new(), b"")).version, HttpVersion::Http11);
}

#[test]
fn every_value_of_every_header_is_written() {
    let out = translate_response(reply(
        "HTTP/1.1",
        200,
        vec![
            header("Set-Cookie", &["a=1", "b=2", "a=1"]),
            header("X-Empty", &[]),
            header("x-one", &["v"]),
            header("Set-Cookie", &["c=3"]),
        ],
        b"",
    ));
    assert_eq!(
        out.headers,
        vec![
            sent("Set-Cookie", "a=1"),
            sent("Set-Cookie", "b=2"),
            sent("Set-Cookie", "a=1"),
            sent("x-one", "v"),
            sent("Set-Cookie", "c=3"),
        ]
    );
}

#[test]
fn header_name_case_is_preserved_in_the_response() {
    let out = translate_response(reply(
        "HTTP/1.1",
        200,
        vec![header("X-MiXeD-CaSe", &["1"]), header("lower", &["2"]), header("UPPER", &["3"])],
        b"",
    ));
    assert_eq!(out.headers, vec![sent("X-MiXeD-CaSe", "1"), sent("lower", "2"), sent("UPPER", "3")]);
}

#[test]
fn header_with_invalid_name_is_dropped() {
    let out = translate_response(reply(
        "HTTP/1.1",
        200,
        vec![
            header("", &["empty name"]),
            header("has space", &["x"]),
            header("colon:", &["x"]),
            header("caf\u{e9}", &["x"]),
            header("tab\t", &["x"]),
            header("new\nline", &["x"]),
            header("(paren)", &["x"]),
            header("ok", &["kept"]),
            header("!#$%&'*+-.^_`|~09azAZ", &["kept too"]),
        ],
        b"body",
    ));
    assert_eq!(out.status, 200);
    assert_eq!(out.headers, vec![sent("ok", "kept"), sent("!#$%&'*+-.^_`|~09azAZ", "kept too")]);
    assert_eq!(out.body, b"body".to_vec());
}

#[test]
fn header_name_length_limit() {
    let longest = "a".repeat(65535);
    let too_long = "a".repeat(65536);
    let out = translate_response(reply(
        "HTTP/1.1",
        200,
        vec![header(&too_long, &["x"]), header(&longest, &["y"])],
        b"",
    ));
    assert_eq!(out.headers, vec![sent(&longest, "y")]);
}

#[test]
fn header_value_that_cannot_be_sent_is_dropped_alone() {
    let out = translate_response(reply(
        "HTTP/1.1",
        200,
        vec![header(
            "x",
            &["good", "bad\nvalue", "tab\tok", "nul\u{0}", "del\u{7f}", "caf\u{e9}", "", "cr\r"],
        )],
        b"",
    ));
    assert_eq!(
        out.headers,
        vec![sent("x", "good"), sent("x", "tab\tok"), sent("x", "caf\u{e9}"), sent("x", "")]
    );
}

#[test]
fn response_body_reaches_the_client_byte_for_byte() {
    let bodies: Vec<Vec<u8>> = vec![
        Vec::new(),
        vec![0],
        b"Pong".to_vec(),
        vec![0x00, 0xff, 0x00, 0x80, 0x7f],
        (0..=255u8).rev().collect(),
    ];
    for body in bodies {
        let out = translate_response(reply("HTTP/1.1", 200, Vec::new(), &body));
        assert_eq!(out.body, body);
    }
}
