use wasi_fetch::{
    chunk_step, to_wasi_method, value_to_str, Body, ChunkStep, FetchError, Frame, Headers, Method,
    WasiMethod,
};

#[test]
fn header_insert_then_get() {
    let mut h = Headers::new();
    assert!(h.insert("Content-Type", "text/plain".as_bytes()));
    assert_eq!(h.get("content-type"), Some(b"text/plain".to_vec()));
    assert_eq!(h.get("CONTENT-TYPE"), Some(b"text/plain".to_vec()));
    assert!(h.insert("content-type", "text/html".as_bytes()));
    assert_eq!(h.len(), 1);
    assert_eq!(h.get("Content-Type"), Some(b"text/html".to_vec()));
    assert_eq!(h.get("accept"), None);
    assert_eq!(h.get("bad name"), None);
}

#[test]
fn header_insert_replaces_appended_values_in_place() {
    let mut h = Headers::new();
    assert!(h.append("a", "1".as_bytes()));
    assert!(h.append("b", "2".as_bytes()));
    assert!(h.append("a", "3".as_bytes()));
    assert!(h.insert("A", "4".as_bytes()));
    assert_eq!(
        h.entries(),
        vec![("a".to_string(), b"4".to_vec()), ("b".to_string(), b"2".to_vec())]
    );
}

#[test]
fn invalid_headers_are_refused() {
    let mut h = Headers::new();
    assert!(!h.insert("", "v".as_bytes()));
    assert!(!h.insert("na me", "v".as_bytes()));
    assert!(!h.insert("caf\u{e9}", "v".as_bytes()));
    assert!(!h.insert("x", "a\rb".as_bytes()));
    assert!(!h.append("x", "\u{7f}".as_bytes()));
    assert!(h.insert("x", "tab\tand caf\u{e9}".as_bytes()));
    assert_eq!(h.len(), 1);
}

#[test]
fn header_values_may_hold_any_printable_byte() {
    let mut h = Headers::new();
    assert!(h.append("x", &[0x80, 0xff, b'a']));
    assert_eq!(h.get("x"), Some(vec![0x80, 0xff, b'a']));
    assert!(!h.append("x", &[0x00]));
}

#[test]
fn header_value_as_text() {
    assert_eq!(value_to_str(b"https://e.org/x").as_deref(), Some("https://e.org/x"));
    assert_eq!(value_to_str(b"a\tb").as_deref(), Some("a\tb"));
    assert_eq!(value_to_str(&[0x68, 0xc3, 0xa9]), None);
    assert_eq!(value_to_str(b""), Some(String::new()));
}

#[test]
fn wasi_methods() {
    assert!(matches!(to_wasi_method(&Method::Get), WasiMethod::Get));
    assert!(matches!(to_wasi_method(&Method::Head), WasiMethod::Head));
    match to_wasi_method(&Method::Connect) {
        WasiMethod::Other(m) => assert_eq!(m, "CONNECT"),
        _ => panic!("CONNECT is sent by name"),
    }
    assert_eq!(Method::Delete.as_str(), "DELETE");
}

#[test]
fn method_names_read_canonically() {
    assert!(matches!(Method::from_name("GET"), Some(Method::Get)));
    assert!(matches!(Method::from_name("TRACE"), Some(Method::Trace)));
    assert!(matches!(Method::from_name("CONNECT"), Some(Method::Connect)));
    match Method::from_name("get") {
        Some(Method::Extension(s)) => assert_eq!(s.as_str(), "get"),
        _ => panic!("names are case-sensitive"),
    }
    assert!(Method::from_name("").is_none());
    assert!(Method::from_name("BAD NAME").is_none());
    assert!(Method::from_name("CAF\u{c9}").is_none());
    match to_wasi_method(&Method::from_name("PURGE").unwrap()) {
        WasiMethod::Other(s) => assert_eq!(s, "PURGE"),
        _ => panic!("an extension is sent by name"),
    }
}

#[test]
fn body_from_bytes_reads_back() {
    let b = Body::from_bytes(b"hello".to_vec());
    assert!(!b.is_end_stream());
    assert_eq!(b.bytes(), b"hello".to_vec());
}

#[test]
fn body_chunk_then_end() {
    let mut b = Body::from_bytes(vec![1, 2, 3]);
    assert_eq!(b.chunk(), Some(vec![1, 2, 3]));
    assert!(b.is_end_stream());
    assert_eq!(b.chunk(), None);
    assert_eq!(b.bytes(), Vec::<u8>::new());
}

#[test]
fn empty_bodies_are_at_their_end() {
    assert!(Body::empty().is_end_stream());
    let mut b = Body::from_bytes(Vec::new());
    assert!(b.is_end_stream());
    assert_eq!(b.chunk(), None);
}

#[test]
fn body_text() {
    assert_eq!(Body::from_bytes("h\u{e9}llo".as_bytes().to_vec()).text().ok().unwrap(), "h\u{e9}llo");
    match Body::from_bytes(vec![0x68, 0xff]).text() {
        Err(FetchError::Utf8(x)) => {
            assert_eq!(x.as_bytes(), &[0x68, 0xff]);
            let text = format!("UTF-8 error: {x}");
            assert_eq!(FetchError::Utf8(x).to_string(), text);
        }
        _ => panic!("invalid UTF-8 must fail"),
    }
}

#[test]
fn frames() {
    assert!(matches!(chunk_step(Frame::Data(vec![7])), ChunkStep::Chunk(d) if d == vec![7]));
    assert!(matches!(chunk_step(Frame::Trailers), ChunkStep::Skip));
    assert!(matches!(chunk_step(Frame::Failed), ChunkStep::Finished));
    assert!(matches!(chunk_step(Frame::End), ChunkStep::Finished));
}

#[test]
fn error_texts() {
    assert_eq!(FetchError::Url("bad".to_string()).to_string(), "URL error: bad");
    assert_eq!(
        FetchError::Transport("reset".to_string()).to_string(),
        "HTTP transport error: reset"
    );
    let cause = serde_json::from_slice::<u8>(b"x").unwrap_err();
    let text = format!("JSON error: {cause}");
    let json: FetchError = cause.into();
    assert_eq!(json.to_string(), text);
    assert!(FetchError::Url(String::new()).is_url());
    assert!(FetchError::Transport(String::new()).is_transport());
}
