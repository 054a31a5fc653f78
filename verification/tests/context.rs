use mightybadger_gotham::context::RequestContext;

fn pairs(raw: &[(&str, &[u8])]) -> Vec<(String, Vec<u8>)> {
    raw.iter().map(|(n, v)| (n.to_string(), v.to_vec())).collect()
}

fn get<'a>(ctx: &'a RequestContext, key: &str) -> Option<&'a String> {
    let key = key.to_string();
    ctx.get(&key)
}

#[test]
fn header_becomes_prefixed_uppercase_field() {
    let ctx = RequestContext::from_headers(&pairs(&[("X-Request-Id", b"abc")]));
    assert_eq!(get(&ctx, "HTTP_X_REQUEST_ID").unwrap(), "abc");
    assert_eq!(ctx.len(), 1);
}

#[test]
fn absent_headers_produce_no_field() {
    let ctx = RequestContext::from_headers(&pairs(&[("Host", b"localhost")]));
    assert!(get(&ctx, "HTTP_USER_AGENT").is_none());
    assert!(get(&ctx, "HTTP_X_REQUEST_ID").is_none());
}

#[test]
fn key_transformation_ignores_name_case() {
    let lower = RequestContext::from_headers(&pairs(&[("user-agent", b"a")]));
    let mixed = RequestContext::from_headers(&pairs(&[("User-Agent", b"a")]));
    let upper = RequestContext::from_headers(&pairs(&[("USER-AGENT", b"a")]));
    assert_eq!(get(&lower, "HTTP_USER_AGENT").unwrap(), "a");
    assert_eq!(get(&mixed, "HTTP_USER_AGENT").unwrap(), "a");
    assert_eq!(get(&upper, "HTTP_USER_AGENT").unwrap(), "a");
}

#[test]
fn key_transformation_is_deterministic() {
    let a = RequestContext::from_headers(&pairs(&[("X-Forwarded-For", b"10.0.0.1")]));
    let b = RequestContext::from_headers(&pairs(&[("X-Forwarded-For", b"10.0.0.1")]));
    assert_eq!(
        get(&a, "HTTP_X_FORWARDED_FOR").unwrap(),
        get(&b, "HTTP_X_FORWARDED_FOR").unwrap()
    );
}

#[test]
fn duplicate_header_last_occurrence_wins() {
    let ctx = RequestContext::from_headers(&pairs(&[
        ("Accept", b"text/html"),
        ("Accept", b"application/json"),
    ]));
    assert_eq!(get(&ctx, "HTTP_ACCEPT").unwrap(), "application/json");
    assert_eq!(ctx.len(), 1);
}

#[test]
fn duplicate_names_differing_in_case_collide() {
    let ctx = RequestContext::from_headers(&pairs(&[("Host", b"first"), ("HOST", b"second")]));
    assert_eq!(get(&ctx, "HTTP_HOST").unwrap(), "second");
    assert_eq!(ctx.len(), 1);
}

#[test]
fn invalid_bytes_are_lossily_decoded() {
    let ctx = RequestContext::from_headers(&pairs(&[("X-Raw", &[0xff, 0x61])]));
    assert_eq!(get(&ctx, "HTTP_X_RAW").unwrap(), "\u{FFFD}a");
}

#[test]
fn no_headers_no_fields() {
    let ctx = RequestContext::from_headers(&Vec::new());
    assert_eq!(ctx.len(), 0);
}

#[test]
fn host_only_request_has_exactly_one_field() {
    let ctx = RequestContext::from_headers(&pairs(&[("Host", b"localhost")]));
    assert_eq!(ctx.len(), 1);
    assert_eq!(get(&ctx, "HTTP_HOST").unwrap(), "localhost");
}

#[test]
fn context_from_real_header_map() {
    let mut m = http::HeaderMap::new();
    m.insert(
        http::header::HeaderName::from_static("user-agent"),
        http::HeaderValue::from_static("test-agent"),
    );
    m.insert(
        http::header::HeaderName::from_static("host"),
        http::HeaderValue::from_static("localhost"),
    );
    let ctx = RequestContext::from_header_map(&m);
    assert_eq!(ctx.len(), 2);
    assert_eq!(get(&ctx, "HTTP_USER_AGENT").unwrap(), "test-agent");
    assert_eq!(get(&ctx, "HTTP_HOST").unwrap(), "localhost");
}

#[test]
fn clone_preserves_the_mapping() {
    let ctx = RequestContext::from_headers(&pairs(&[("Host", b"localhost")]));
    let copy = ctx.clone();
    assert_eq!(get(&copy, "HTTP_HOST").unwrap(), "localhost");
    assert_eq!(copy.len(), 1);
}
