use std::time::Duration;

use wasi_fetch::{
    redirect_target, Client, FetchError, JoinFailure, Method, Next, RequestBuilder, Scheme, WasiMethod,
};

fn outgoing(b: RequestBuilder) -> wasi_fetch::OutgoingRequest {
    let x = b.start().ok().expect("url parses");
    x.request().ok().expect("request prepares")
}

#[test]
fn get_builds_a_plain_request() {
    let o = outgoing(Client::new().get("https://example.com/api?x=1"));
    assert!(matches!(o.method, WasiMethod::Get));
    assert_eq!(o.scheme, Scheme::Https);
    assert_eq!(o.authority.as_deref(), Some("example.com"));
    assert_eq!(o.path_with_query.as_deref(), Some("/api?x=1"));
    assert!(o.headers.is_empty());
    assert!(o.body.is_empty());
    assert_eq!(o.options, None);
}

#[test]
fn each_client_method_sets_its_method() {
    let c = Client::default();
    assert!(matches!(outgoing(c.post("http://h/")).method, WasiMethod::Post));
    assert!(matches!(outgoing(c.put("http://h/")).method, WasiMethod::Put));
    assert!(matches!(outgoing(c.delete("http://h/")).method, WasiMethod::Delete));
    assert!(matches!(outgoing(c.patch("http://h/")).method, WasiMethod::Patch));
    assert!(matches!(outgoing(c.head("http://h/")).method, WasiMethod::Head));
    assert!(matches!(outgoing(c.request(Method::Options, "http://h/")).method, WasiMethod::Options));
    match outgoing(c.request(Method::Trace, "http://h/")).method {
        WasiMethod::Other(m) => assert_eq!(m, "TRACE"),
        _ => panic!("TRACE is sent by name"),
    }
    match outgoing(c.request(Method::from_name("PURGE").unwrap(), "http://h/")).method {
        WasiMethod::Other(m) => assert_eq!(m, "PURGE"),
        _ => panic!("an extension method is sent by name"),
    }
}

#[test]
fn http_scheme_and_root_path() {
    let o = outgoing(Client::new().get("http://example.com"));
    assert_eq!(o.scheme, Scheme::Http);
    assert_eq!(o.authority.as_deref(), Some("example.com"));
    assert_eq!(o.path_with_query.as_deref(), Some("/"));
}

#[test]
fn headers_are_normalized_and_replaced() {
    let b = Client::new()
        .get("https://example.com/")
        .header("Authorization", b"Bearer a")
        .header("x-trace", b"1")
        .header("AUTHORIZATION", b"Bearer b")
        .header("bad name", b"ignored")
        .header("x-bad-value", b"line\nbreak");
    let o = outgoing(b);
    assert_eq!(
        o.headers,
        vec![
            ("authorization".to_string(), b"Bearer b".to_vec()),
            ("x-trace".to_string(), b"1".to_vec()),
        ]
    );
}

#[test]
fn headers_replace_all() {
    let mut h = wasi_fetch::Headers::new();
    assert!(h.append("accept", "a".as_bytes()));
    assert!(h.append("accept", "b".as_bytes()));
    let o = outgoing(Client::new().get("https://e.org/").header("x", b"y").headers(h));
    assert_eq!(
        o.headers,
        vec![("accept".to_string(), b"a".to_vec()), ("accept".to_string(), b"b".to_vec())]
    );
}

#[test]
fn body_is_sent() {
    let o = outgoing(Client::new().post("https://e.org/u").body(b"raw bytes".to_vec()));
    assert_eq!(o.body, b"raw bytes".to_vec());
}

#[test]
fn json_sets_body_and_content_type() {
    let o = outgoing(
        Client::new()
            .post("https://e.org/u")
            .header("content-type", b"text/plain")
            .json(Some(b"{\"name\":\"Alice\"}".to_vec())),
    );
    assert_eq!(o.body, b"{\"name\":\"Alice\"}".to_vec());
    assert_eq!(o.headers, vec![("content-type".to_string(), b"application/json".to_vec())]);
}

#[test]
fn json_that_failed_to_serialize_changes_nothing() {
    let o = outgoing(Client::new().post("https://e.org/u").body(vec![1, 2]).json(None));
    assert_eq!(o.body, vec![1, 2]);
    assert!(o.headers.is_empty());
}

#[test]
fn timeouts_become_transport_options() {
    let o = outgoing(Client::new().get("https://e.org/").timeout(Duration::from_millis(5000)));
    let opts = o.options.expect("options are set");
    assert_eq!(opts.connect_timeout, Some(5_000_000_000));
    assert_eq!(opts.first_byte_timeout, Some(5_000_000_000));
    assert_eq!(opts.between_bytes_timeout, None);

    let o = outgoing(
        Client::new().get("https://e.org/").between_bytes_timeout(Duration::from_secs(2)),
    );
    let opts = o.options.expect("options are set");
    assert_eq!(opts.connect_timeout, None);
    assert_eq!(opts.first_byte_timeout, None);
    assert_eq!(opts.between_bytes_timeout, Some(2_000_000_000));
}

#[test]
fn invalid_url_is_refused_at_start() {
    match Client::new().get("not a url").start() {
        Err(FetchError::Url(m)) => assert_eq!(m, "Invalid URL 'not a url': invalid uri character"),
        _ => panic!("expected a URL error"),
    }
}

#[test]
fn missing_scheme_is_refused() {
    let x = Client::new().get("example.com").start().ok().expect("parses as an authority");
    match x.request() {
        Err(FetchError::Url(m)) => assert_eq!(m, "Missing URL scheme"),
        _ => panic!("expected a URL error"),
    }
}

#[test]
fn unsupported_scheme_is_refused() {
    let x = Client::new().get("ftp://example.com/f").start().ok().expect("parses");
    match x.request() {
        Err(FetchError::Url(m)) => assert_eq!(m, "Unsupported scheme: ftp"),
        _ => panic!("expected a URL error"),
    }
}

#[test]
fn non_redirect_is_delivered() {
    let mut x = Client::new().get("https://e.org/").start().ok().unwrap();
    let h = wasi_fetch::Headers::new();
    assert!(matches!(x.on_response(200, &h), Ok(Next::Deliver)));
    assert!(matches!(x.on_response(404, &h), Ok(Next::Deliver)));
}

#[test]
fn options_keep_the_low_64_bits_of_nanoseconds() {
    assert_eq!(wasi_fetch::options_from_nanos(None, None), None);
    let o = wasi_fetch::options_from_nanos(Some(u64::MAX as u128 + 5), Some(7)).unwrap();
    assert_eq!(o.connect_timeout, Some(4));
    assert_eq!(o.first_byte_timeout, Some(4));
    assert_eq!(o.between_bytes_timeout, Some(7));
}

#[test]
fn outgoing_from_parts_maps_the_pieces() {
    let parts = wasi_fetch::UriParts {
        text: "https://h:8080/p?q".to_string(),
        scheme: Some("https".to_string()),
        authority: Some("h:8080".to_string()),
        path_and_query: Some("/p?q".to_string()),
    };
    let o = wasi_fetch::outgoing_from_parts(
        Ok(parts),
        &Method::Put,
        &wasi_fetch::Headers::new(),
        vec![9],
        None,
        None,
    )
    .ok()
    .unwrap();
    assert!(matches!(o.method, WasiMethod::Put));
    assert_eq!(o.scheme, Scheme::Https);
    assert_eq!(o.authority.as_deref(), Some("h:8080"));
    assert_eq!(o.path_with_query.as_deref(), Some("/p?q"));
    assert_eq!(o.body, vec![9]);
    match wasi_fetch::outgoing_from_parts(
        Err("bad".to_string()),
        &Method::Get,
        &wasi_fetch::Headers::new(),
        Vec::new(),
        None,
        None,
    ) {
        Err(FetchError::Url(m)) => assert_eq!(m, "Invalid URI: bad"),
        _ => panic!("expected a URL error"),
    }
}

#[test]
fn start_from_names_the_url() {
    match Client::new().get("x y").start_from(Err("invalid uri character".to_string())) {
        Err(FetchError::Url(m)) => assert_eq!(m, "Invalid URL 'x y': invalid uri character"),
        _ => panic!("expected a URL error"),
    }
}

#[test]
fn redirect_target_names_the_failing_step() {
    match redirect_target(Ok("u".to_string()), None) {
        Err(FetchError::Url(m)) => assert_eq!(m, ""),
        _ => panic!(),
    }
    match redirect_target(Err(JoinFailure::Base("e1".to_string())), None) {
        Err(FetchError::Url(m)) => assert_eq!(m, "Invalid base URL: e1"),
        _ => panic!(),
    }
    match redirect_target(Err(JoinFailure::Reference("e2".to_string())), None) {
        Err(FetchError::Url(m)) => assert_eq!(m, "Invalid redirect URL: e2"),
        _ => panic!(),
    }
    match redirect_target(Ok("u".to_string()), Some(Err("e3".to_string()))) {
        Err(FetchError::Url(m)) => assert_eq!(m, "Invalid redirect URL: e3"),
        _ => panic!(),
    }
    let parts = wasi_fetch::UriParts {
        text: "http://a/b".to_string(),
        scheme: Some("http".to_string()),
        authority: Some("a".to_string()),
        path_and_query: Some("/b".to_string()),
    };
    assert_eq!(redirect_target(Ok("http://a/b".to_string()), Some(Ok(parts))).ok().unwrap(), "http://a/b");
}
