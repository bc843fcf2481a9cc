use http_message::request::{
    Head, HeaderField, RequestUri, BAD_REQUEST, MAX_HEADERS_NUM,
};
use http_message::wire::{Method, Version};

fn field(name: &str, values: &[&str]) -> HeaderField {
    HeaderField {
        name: name.to_string(),
        values: values.iter().map(|v| v.as_bytes().to_vec()).collect(),
    }
}

#[test]
fn parse_get() {
    let head = Head::parse(b"GET /index.html HTTP/1.1\r\nHost: example.com\r\nAccept: */*\r\n\r\n")
        .unwrap();
    assert_eq!(head.version, Version::Http11);
    assert!(!head.https);
    assert_eq!(head.method, Method::Get);
    assert_eq!(head.uri, RequestUri::AbsolutePath("/index.html".to_string()));
    assert_eq!(
        head.headers,
        vec![field("Host", &["example.com"]), field("Accept", &["*/*"])]
    );
}

#[test]
fn parse_http10() {
    let head = Head::parse(b"POST /submit HTTP/1.0\r\n\r\n").unwrap();
    assert_eq!(head.version, Version::Http10);
    assert_eq!(head.method, Method::Post);
    assert_eq!(head.uri, RequestUri::AbsolutePath("/submit".to_string()));
    assert_eq!(head.headers, Vec::<HeaderField>::new());
}

#[test]
fn parse_extension_method_and_star() {
    let head = Head::parse(b"PURGE * HTTP/1.1\r\n\r\n").unwrap();
    assert_eq!(head.method, Method::Extension("PURGE".to_string()));
    assert_eq!(head.uri, RequestUri::Star);
}

#[test]
fn parse_absolute_uri() {
    let head = Head::parse(b"GET http://example.com/a HTTP/1.1\r\n\r\n").unwrap();
    assert_eq!(head.uri, RequestUri::AbsoluteUri("http://example.com/a".to_string()));
}

#[test]
fn parse_authority() {
    let head = Head::parse(b"CONNECT example.com:443 HTTP/1.1\r\n\r\n").unwrap();
    assert_eq!(head.method, Method::Connect);
    assert_eq!(head.uri, RequestUri::Authority("example.com:443".to_string()));
}

#[test]
fn parse_joins_lines_of_one_name() {
    let head = Head::parse(
        b"GET / HTTP/1.1\r\nAccept: a\r\nHost: h  \r\naccept: b\r\n\r\n",
    ).unwrap();
    assert_eq!(head.headers, vec![field("Accept", &["a", "b"]), field("Host", &["h"])]);
}

#[test]
fn parse_partial_head() {
    assert_eq!(Head::parse(b"GET / HTTP/1.1\r\nHost: example.com\r\n"), Err(BAD_REQUEST));
    assert_eq!(Head::parse(b""), Err(BAD_REQUEST));
    assert_eq!(Head::parse(b"GET"), Err(BAD_REQUEST));
}

#[test]
fn parse_malformed_head() {
    assert_eq!(Head::parse(b"GET / FTP/1.1\r\n\r\n"), Err(BAD_REQUEST));
    assert_eq!(Head::parse(b"GET / HTTP/1.1\r\nNo colon here\r\n\r\n"), Err(BAD_REQUEST));
    assert_eq!(Head::parse(b"\x00\x01\x02\r\n\r\n"), Err(BAD_REQUEST));
}

#[test]
fn parse_bytes_behind_the_head() {
    assert_eq!(Head::parse_checked(b"GET / HTTP/1.1\r\n\r\nbody"), None);
    assert_eq!(Head::parse_checked(b"GET / HTTP/1.1\r\n\r\n\r\n"), None);
}

#[test]
fn parse_checked_agrees_with_parse() {
    let inputs: Vec<&[u8]> = vec![
        b"GET / HTTP/1.1\r\nHost: example.com\r\n\r\n",
        b"PURGE * HTTP/1.0\r\n\r\n",
        b"GET / HTTP/1.1\r\nHost: example.com\r\n",
        b"GET / FTP/1.1\r\n\r\n",
        b"",
    ];
    for data in inputs {
        assert_eq!(Head::parse_checked(data), Some(Head::parse(data)));
    }
}

#[test]
fn parse_bad_target() {
    assert_eq!(Head::parse(b"GET http://[bad/ HTTP/1.1\r\n\r\n"), Err(BAD_REQUEST));
}

#[test]
fn bad_request_is_400() {
    assert_eq!(BAD_REQUEST, 400);
}

fn head_with_headers(count: usize) -> Vec<u8> {
    let mut data = b"GET / HTTP/1.1\r\n".to_vec();
    for i in 0..count {
        data.extend_from_slice(format!("X-Header-{}: {}\r\n", i, i).as_bytes());
    }
    data.extend_from_slice(b"\r\n");
    data
}

#[test]
fn parse_as_many_headers_as_allowed() {
    let head = Head::parse(&head_with_headers(MAX_HEADERS_NUM)).unwrap();
    assert_eq!(head.headers.len(), MAX_HEADERS_NUM);
    assert_eq!(head.headers[255], field("X-Header-255", &["255"]));
}

#[test]
fn parse_too_many_headers() {
    assert_eq!(Head::parse(&head_with_headers(MAX_HEADERS_NUM + 1)), Err(BAD_REQUEST));
    assert_eq!(Head::parse(&head_with_headers(1000)), Err(BAD_REQUEST));
}

#[test]
fn assemble_needs_every_part() {
    let headers = vec![field("Host", &["h"])];
    let head =
        Head::assemble(1, Some(Method::Get), Some(RequestUri::Star), Some(headers.clone())).unwrap();
    assert_eq!(
        head,
        Head {
            version: Version::Http11,
            https: false,
            method: Method::Get,
            uri: RequestUri::Star,
            headers: headers.clone(),
        }
    );
    for minor in vec![0u8, 2, 9, 255] {
        let old = Head::assemble(minor, Some(Method::Get), Some(RequestUri::Star), Some(vec![]));
        assert_eq!(old.unwrap().version, Version::Http10);
    }
    assert_eq!(Head::assemble(1, None, Some(RequestUri::Star), Some(vec![])), Err(BAD_REQUEST));
    assert_eq!(Head::assemble(1, Some(Method::Get), None, Some(vec![])), Err(BAD_REQUEST));
    assert_eq!(
        Head::assemble(1, Some(Method::Get), Some(RequestUri::Star), None),
        Err(BAD_REQUEST)
    );
}
