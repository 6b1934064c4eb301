use wasi_fetch::{Client, FetchError, Headers, Next, WasiMethod};

fn location(to: &str) -> Headers {
    let mut h = Headers::new();
    assert!(h.append("Location", to.as_bytes()));
    h
}

#[test]
fn redirect_is_followed_to_the_resolved_location() {
    let mut x = Client::new().get("https://example.com/a/b").start().ok().unwrap();
    assert!(matches!(x.on_response(302, &location("/c?d=1")), Ok(Next::Follow)));
    let o = x.request().ok().unwrap();
    assert!(matches!(o.method, WasiMethod::Get));
    assert_eq!(o.authority.as_deref(), Some("example.com"));
    assert_eq!(o.path_with_query.as_deref(), Some("/c?d=1"));

    assert!(matches!(x.on_response(301, &location("e")), Ok(Next::Follow)));
    let o = x.request().ok().unwrap();
    assert_eq!(o.path_with_query.as_deref(), Some("/e"));

    assert!(matches!(x.on_response(307, &location("http://other.org/x")), Ok(Next::Follow)));
    let o = x.request().ok().unwrap();
    assert_eq!(o.authority.as_deref(), Some("other.org"));
    assert_eq!(o.path_with_query.as_deref(), Some("/x"));
    assert!(matches!(x.on_response(200, &Headers::new()), Ok(Next::Deliver)));
}

#[test]
fn see_other_turns_post_into_get_without_body() {
    let mut x = Client::new()
        .post("https://e.org/form")
        .header("x-k", b"v")
        .body(b"payload".to_vec())
        .start()
        .ok()
        .unwrap();
    let first = x.request().ok().unwrap();
    assert_eq!(first.body, b"payload".to_vec());
    assert!(matches!(x.on_response(303, &location("/done")), Ok(Next::Follow)));
    let o = x.request().ok().unwrap();
    assert!(matches!(o.method, WasiMethod::Get));
    assert!(o.body.is_empty());
    assert_eq!(o.headers, vec![("x-k".to_string(), b"v".to_vec())]);
}

#[test]
fn other_redirect_keeps_post_and_its_body() {
    let mut x = Client::new().post("https://e.org/form").body(b"payload".to_vec()).start().ok().unwrap();
    assert!(matches!(x.on_response(307, &location("/again")), Ok(Next::Follow)));
    let o = x.request().ok().unwrap();
    assert!(matches!(o.method, WasiMethod::Post));
    assert_eq!(o.body, b"payload".to_vec());
}

#[test]
fn redirected_get_sends_no_body() {
    let mut x = Client::new().get("https://e.org/").body(b"odd".to_vec()).start().ok().unwrap();
    assert_eq!(x.request().ok().unwrap().body, b"odd".to_vec());
    assert!(matches!(x.on_response(302, &location("/b")), Ok(Next::Follow)));
    assert!(x.request().ok().unwrap().body.is_empty());
}

#[test]
fn too_many_redirects() {
    let mut x = Client::new().get("https://e.org/").redirect_limit(2).start().ok().unwrap();
    assert!(matches!(x.on_response(302, &location("/1")), Ok(Next::Follow)));
    assert!(matches!(x.on_response(302, &location("/2")), Ok(Next::Follow)));
    match x.on_response(302, &location("/3")) {
        Err(FetchError::Transport(m)) => assert_eq!(m, "Too many redirects"),
        _ => panic!("expected the limit to stop the exchange"),
    }
}

#[test]
fn default_limit_is_ten() {
    let mut x = Client::new().get("https://e.org/").start().ok().unwrap();
    for _ in 0..10 {
        assert!(matches!(x.on_response(301, &location("/n")), Ok(Next::Follow)));
    }
    assert!(matches!(x.on_response(301, &location("/n")), Err(FetchError::Transport(_))));
}

#[test]
fn limit_zero_delivers_redirects() {
    let mut x = Client::new().get("https://e.org/").redirect_limit(0).start().ok().unwrap();
    assert!(matches!(x.on_response(302, &location("/x")), Ok(Next::Deliver)));
}

#[test]
fn redirect_without_location_is_delivered() {
    let mut x = Client::new().get("https://e.org/").start().ok().unwrap();
    assert!(matches!(x.on_response(304, &Headers::new()), Ok(Next::Deliver)));
}

#[test]
fn location_that_is_no_text_fails() {
    let mut x = Client::new().get("https://e.org/").start().ok().unwrap();
    match x.on_response(302, &location("/caf\u{e9}")) {
        Err(FetchError::Transport(m)) => {
            assert_eq!(m, "Invalid Location header: failed to convert header to a str")
        }
        _ => panic!("expected a transport error"),
    }
}

#[test]
fn location_that_does_not_resolve_fails() {
    let mut x = Client::new().get("https://e.org/").start().ok().unwrap();
    match x.on_response(302, &location("http://[::1")) {
        Err(FetchError::Url(m)) => assert_eq!(m, "Invalid redirect URL: invalid IPv6 address"),
        _ => panic!("expected a URL error"),
    }
}

#[test]
fn resolve_redirect_joins_and_parses() {
    assert_eq!(
        wasi_fetch::resolve_redirect("https://example.com/a/b", "../c").ok().unwrap(),
        "https://example.com/c"
    );
    match wasi_fetch::resolve_redirect("no base", "/c") {
        Err(FetchError::Url(m)) => assert_eq!(m, "Invalid base URL: relative URL without a base"),
        _ => panic!("expected a URL error"),
    }
}
