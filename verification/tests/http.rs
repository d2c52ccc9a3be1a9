use cogs::chunk::Chunk;
use cogs::engine::{read_to_bytes, read_to_string, Error};
use cogs::http::{origin_form, split, Headers, HttpVersion, Method, Request, Uri};
use cogs::version;

fn example_uri() -> Uri {
    Uri::new(String::from("https://example.test"), String::from("/a/b?c=d"))
}

#[test]
fn uri_parts_and_text() {
    let u = example_uri();
    assert_eq!(u.scheme_authority().as_str(), "https://example.test");
    assert_eq!(u.origin().as_str(), "/a/b?c=d");
    assert_eq!(u.to_text(), "https://example.test/a/b?c=d");
}

#[test]
fn origin_form_drops_scheme_and_authority() {
    let o = origin_form(&example_uri());
    assert_eq!(o.to_text(), "/a/b?c=d");
}

#[test]
fn headers_set_replaces_by_name() {
    let mut h = Headers::new();
    assert_eq!(h.len(), 0);
    h.set(String::from("Accept"), String::from("text/xml"));
    h.set(String::from("Host"), String::from("example.test"));
    h.set(String::from("Accept"), String::from("text/plain"));
    assert_eq!(h.len(), 2);
    assert_eq!(h.get(&String::from("Accept")), Some(&String::from("text/plain")));
    assert_eq!(h.get(&String::from("Host")), Some(&String::from("example.test")));
    assert_eq!(h.get(&String::from("Cookie")), None);
    let items = h.items();
    assert_eq!(items[0], (String::from("Host"), String::from("example.test")));
    assert_eq!(items[1], (String::from("Accept"), String::from("text/plain")));
}

#[test]
fn request_accessors() {
    let mut req = Request::new(Method::Get, example_uri());
    assert_eq!(*req.method(), Method::Get);
    assert_eq!(req.version(), HttpVersion::Http11);
    assert_eq!(req.headers().len(), 0);
    req.set_method(Method::Put);
    assert_eq!(*req.method(), Method::Put);
    req.set_version(HttpVersion::H2);
    assert_eq!(req.version(), HttpVersion::H2);
    req.set_uri(Uri::new(String::from("http://other.test"), String::from("/")));
    assert_eq!(req.uri().to_text(), "http://other.test/");
    req.headers_mut().set(String::from("Accept"), String::from("*/*"));
    assert_eq!(req.headers().len(), 1);
}

#[test]
fn split_uses_origin_form_unless_proxied() {
    let mut req = Request::new(Method::Post, example_uri());
    req.set_body(b"payload".to_vec());
    let (head, body) = split(req);
    assert_eq!(*head.subject.1.scheme_authority(), String::new());
    assert_eq!(head.subject.1.origin().as_str(), "/a/b?c=d");
    assert_eq!(head.subject.0, Method::Post);
    assert_eq!(head.version, HttpVersion::Http11);
    assert_eq!(body, Some(b"payload".to_vec()));

    let mut proxied = Request::new(Method::Get, example_uri());
    proxied.set_proxy(true);
    let (head, body) = split(proxied);
    assert_eq!(head.subject.1.to_text(), "https://example.test/a/b?c=d");
    assert_eq!(body, None);
}

#[test]
fn chunk_round_trip() {
    let c = Chunk::from_vec(b"hello".to_vec());
    assert_eq!(c.as_slice(), b"hello");
    let b = c.into_bytes();
    let c2 = Chunk::from_bytes(b);
    assert_eq!(c2.as_slice(), b"hello");
    let c3 = Chunk::from_string(String::from("héllo"));
    assert_eq!(c3.as_slice(), "héllo".as_bytes());
}

#[test]
fn body_chunks_concatenate() {
    let chunks = vec![
        Chunk::from_vec(b"Hel".to_vec()),
        Chunk::from_vec(Vec::new()),
        Chunk::from_vec(b"lo!".to_vec()),
    ];
    assert_eq!(read_to_bytes(&chunks), b"Hello!".to_vec());
    assert_eq!(read_to_string(&chunks).unwrap(), "Hello!");
}

#[test]
fn body_that_is_not_text_fails_decoding() {
    let chunks = vec![Chunk::from_vec(vec![0xc3]), Chunk::from_vec(vec![0x28])];
    assert!(matches!(read_to_string(&chunks), Err(Error::FromUtf8Error)));
}

#[test]
fn version_formats_triple() {
    let v = version(
        Some(String::from("1")),
        Some(String::from("2")),
        Some(String::from("3")),
    );
    assert_eq!(v, "1.2.3");
}

#[test]
fn version_missing_part_is_empty() {
    let v = version(Some(String::from("1")), None, Some(String::from("3")));
    assert_eq!(v, "");
}
