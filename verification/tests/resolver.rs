use iron_request::resolver::{
    check_parsed, resolve, synthesize, RawUrl, RequestTarget, ResolveError, Url,
};

fn url(scheme: &str, host: &str, port: u16, path: &str, query: Option<&str>) -> Url {
    Url {
        scheme: scheme.to_string(),
        host: host.to_string(),
        port,
        path: path.to_string(),
        query: query.map(|q| q.to_string()),
    }
}

#[test]
fn path_target_takes_host_from_header_and_port_from_socket() {
    let target = RequestTarget::AbsolutePath("/hello".to_string());
    let resolved = resolve(&target, Some("iron.test"), "http", 3000);
    assert_eq!(resolved, Ok(url("http", "iron.test", 3000, "/hello", None)));
}

#[test]
fn path_target_keeps_its_query() {
    let target = RequestTarget::AbsolutePath("/search?q=rust&page=2".to_string());
    let resolved = resolve(&target, Some("iron.test"), "https", 8443);
    assert_eq!(
        resolved,
        Ok(url("https", "iron.test", 8443, "/search", Some("q=rust&page=2")))
    );
}

#[test]
fn path_target_without_host_is_missing_host() {
    let target = RequestTarget::AbsolutePath("/hello".to_string());
    assert_eq!(resolve(&target, None, "http", 3000), Err(ResolveError::MissingHost));
    let other = RequestTarget::AbsolutePath("/a/b?c=d".to_string());
    assert_eq!(resolve(&other, None, "https", 443), Err(ResolveError::MissingHost));
}

#[test]
fn absolute_uri_is_taken_as_given() {
    let target = RequestTarget::AbsoluteUri("http://example.com:8080/a/b?x=1".to_string());
    let resolved = resolve(&target, Some("iron.test"), "https", 3000);
    assert_eq!(resolved, Ok(url("http", "example.com", 8080, "/a/b", Some("x=1"))));
}

#[test]
fn absolute_uri_without_port_gets_the_scheme_default() {
    let target = RequestTarget::AbsoluteUri("https://example.com/index.html".to_string());
    let resolved = resolve(&target, None, "http", 3000);
    assert_eq!(resolved, Ok(url("https", "example.com", 443, "/index.html", None)));
}

#[test]
fn absolute_uri_that_is_no_url_is_malformed() {
    let target = RequestTarget::AbsoluteUri("http://".to_string());
    assert_eq!(resolve(&target, None, "http", 80), Err(ResolveError::MalformedUrl));
    let relative = RequestTarget::AbsoluteUri("a/b".to_string());
    assert_eq!(resolve(&relative, None, "http", 80), Err(ResolveError::MalformedUrl));
}

#[test]
fn absolute_uri_without_host_is_malformed() {
    let target = RequestTarget::AbsoluteUri("mailto:someone@example.com".to_string());
    assert_eq!(resolve(&target, None, "http", 80), Err(ResolveError::MalformedUrl));
}

#[test]
fn absolute_uri_of_unknown_scheme_without_port_is_malformed() {
    let target = RequestTarget::AbsoluteUri("gemini://example.com/".to_string());
    assert_eq!(resolve(&target, None, "http", 80), Err(ResolveError::MalformedUrl));
}

#[test]
fn path_target_with_bad_host_is_malformed() {
    let target = RequestTarget::AbsolutePath("/hello".to_string());
    assert_eq!(
        resolve(&target, Some("bad host"), "http", 3000),
        Err(ResolveError::MalformedUrl)
    );
}

#[test]
fn authority_and_star_targets_are_unsupported() {
    let authority = RequestTarget::Authority("example.com:443".to_string());
    assert_eq!(
        resolve(&authority, Some("example.com"), "http", 80),
        Err(ResolveError::UnsupportedTarget)
    );
    assert_eq!(
        resolve(&RequestTarget::Star, Some("example.com"), "http", 80),
        Err(ResolveError::UnsupportedTarget)
    );
    assert_eq!(resolve(&RequestTarget::Star, None, "http", 80), Err(ResolveError::UnsupportedTarget));
}

#[test]
fn synthesize_writes_scheme_host_port_path() {
    assert_eq!(synthesize("http", "iron.test", 3000, "/hello"), "http://iron.test:3000/hello");
    assert_eq!(synthesize("https", "h", 65535, "/p?q=1"), "https://h:65535/p?q=1");
    assert_eq!(synthesize("http", "h", 0, "/"), "http://h:0/");
    assert_eq!(synthesize("http", "h", 7, ""), "http://h:7");
    assert_eq!(synthesize("http", "h", 10, "/"), "http://h:10/");
    assert_eq!(synthesize("http", "h", 100, "/"), "http://h:100/");
    assert_eq!(synthesize("http", "h", 8080, "/"), "http://h:8080/");
    assert_eq!(synthesize("", "", 1, ""), "://:1");
}

#[test]
fn synthesize_keeps_characters_outside_ascii() {
    assert_eq!(synthesize("http", "b\u{fc}cher.example", 80, "/\u{e9}"), "http://b\u{fc}cher.example:80/\u{e9}");
}

#[test]
fn the_port_in_the_host_header_is_not_what_decides() {
    let target = RequestTarget::AbsolutePath("/x".to_string());
    let resolved = resolve(&target, Some("iron.test"), "http", 4000);
    assert_eq!(resolved.map(|u| u.port), Ok(4000));
}

#[test]
fn check_parsed_wants_host_and_port() {
    let raw = RawUrl {
        scheme: "http".to_string(),
        host: Some("example.com".to_string()),
        port: Some(80),
        path: "/".to_string(),
        query: Some("a=b".to_string()),
    };
    assert_eq!(
        check_parsed(Some(raw.clone())),
        Ok(url("http", "example.com", 80, "/", Some("a=b")))
    );
    let no_host = RawUrl { host: None, ..raw.clone() };
    assert_eq!(check_parsed(Some(no_host)), Err(ResolveError::MalformedUrl));
    let no_port = RawUrl { port: None, ..raw };
    assert_eq!(check_parsed(Some(no_port)), Err(ResolveError::MalformedUrl));
    assert_eq!(check_parsed(None), Err(ResolveError::MalformedUrl));
}
