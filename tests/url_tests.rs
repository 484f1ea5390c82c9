use mcp_web::url::{canonicalize, UrlError, WebUrl};

#[test]
fn test_canonicalize_basic() {
    let url = canonicalize("https://example.com").unwrap();
    assert_eq!(url.scheme(), "https");
    assert_eq!(url.host_str(), Some("example.com"));
}

#[test]
fn test_canonicalize_default_scheme() {
    let url = canonicalize("example.com").unwrap();
    assert_eq!(url.scheme(), "https");
    assert_eq!(url.host_str(), Some("example.com"));
}

#[test]
fn test_canonicalize_lowercase_host() {
    let url = canonicalize("https://EXAMPLE.COM").unwrap();
    assert_eq!(url.host_str(), Some("example.com"));
}

#[test]
fn test_canonicalize_remove_fragment() {
    let url = canonicalize("https://example.com#section").unwrap();
    assert_eq!(url.fragment(), None);
    assert_eq!(url.path(), "/");
}

#[test]
fn test_canonicalize_preserve_query() {
    let url = canonicalize("https://example.com?a=1&b=2").unwrap();
    assert_eq!(url.query(), Some("a=1&b=2"));
}

#[test]
fn test_canonicalize_trim_whitespace() {
    let url = canonicalize("  https://example.com  ").unwrap();
    assert_eq!(url.as_str(), "https://example.com/");
}

#[test]
fn test_canonicalize_unsupported_scheme() {
    let result = canonicalize("file:///etc/passwd");
    assert!(matches!(result, Err(UrlError::UnsupportedScheme(_))));
}

#[test]
fn test_canonicalize_empty() {
    let result = canonicalize("");
    assert!(matches!(result, Err(UrlError::Empty)));
}

#[test]
fn test_canonicalize_whitespace_only() {
    let result = canonicalize("   ");
    assert!(matches!(result, Err(UrlError::Empty)));
}

#[test]
fn test_canonicalize_http_allowed() {
    let url = canonicalize("http://example.com").unwrap();
    assert_eq!(url.scheme(), "http");
}

#[test]
fn test_canonicalize_complex_path() {
    let url = canonicalize("https://example.com/path/to/resource?query=value#fragment").unwrap();
    assert_eq!(url.path(), "/path/to/resource");
    assert_eq!(url.query(), Some("query=value"));
    assert_eq!(url.fragment(), None);
}

#[test]
fn canonicalize_is_idempotent_on_samples() {
    for input in [
        "EXAMPLE.com",
        "  https://Example.COM/a/b?x=1&y=2#top ",
        "http://example.com:8080/path",
        "https://user@Example.org/?q=a%20b",
        "example.com/ünïcode",
    ] {
        let once = canonicalize(input).unwrap();
        let twice = canonicalize(&once.to_string()).unwrap();
        assert_eq!(once.as_str(), twice.as_str());
        assert_eq!(once.host_str(), twice.host_str());
    }
}

#[test]
fn canonicalize_uppercase_bare_host_defaults_to_https() {
    let url = canonicalize("EXAMPLE.com").unwrap();
    assert_eq!(url.host_str(), Some("example.com"));
    assert_eq!(url.scheme(), "https");
}

#[test]
fn canonicalize_rejects_other_schemes() {
    for input in ["ftp://example.com", "ws://example.com", "wss://example.com", "javascript://x", "file:///etc/hosts"] {
        assert!(matches!(canonicalize(input), Err(UrlError::UnsupportedScheme(_))), "{input}");
    }
    // without "://" the default scheme is put in front, and the result does not parse
    assert!(matches!(canonicalize("data:text/plain,hi"), Err(UrlError::InvalidUrl(_))));
}

#[test]
fn canonicalize_reports_parse_failures() {
    assert!(matches!(canonicalize("http://"), Err(UrlError::InvalidUrl(_))));
    assert!(matches!(canonicalize("https://exa mple.com"), Err(UrlError::InvalidUrl(_))));
}

#[test]
fn canonicalize_keeps_query_order_and_drops_fragment() {
    let url = canonicalize("https://Example.com/p?b=2&a=1#frag").unwrap();
    assert_eq!(url.as_str(), "https://example.com/p?b=2&a=1");
    assert_eq!(url.query(), Some("b=2&a=1"));
}

#[test]
fn parse_keeps_url_as_given() {
    let url = WebUrl::parse("https://example.com/a#b").unwrap();
    assert_eq!(url.fragment(), Some("b"));
    assert!(WebUrl::parse("not a url").is_err());
}
