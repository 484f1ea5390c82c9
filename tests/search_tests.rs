use mcp_web::config::AppConfig;
use mcp_web::error::Error;
use mcp_web::search::{
    build_search_request, check_search_status, rate_limit_wait, search_cache_key, WebSearchParams,
    filter_by_domains, map_search_error, parse_safesearch, search_entry_expired, search_entry_fresh, ttl_for_freshness,
    BraveApiResponse, BraveConfig, BraveError, QueryInfo, SafeSearch, SearchRequest, SearchResponse, SearchResult,
    WebResult, WebResults,
};

#[test]
fn test_valid_request() {
    let req = SearchRequest { q: "test query".to_string(), count: Some(10), offset: Some(0), ..Default::default() };
    assert!(req.validate().is_ok());
}

#[test]
fn request_test_empty_query() {
    let req = SearchRequest { q: "".to_string(), ..Default::default() };
    assert!(req.validate().is_err());
}

#[test]
fn test_query_too_long_chars() {
    let req = SearchRequest { q: "a".repeat(401), ..Default::default() };
    assert!(req.validate().is_err());
}

#[test]
fn test_invalid_count() {
    let req = SearchRequest { q: "test".to_string(), count: Some(25), ..Default::default() };
    assert!(matches!(req.validate(), Err(BraveError::InvalidCount)));
}

#[test]
fn test_invalid_offset() {
    let req = SearchRequest { q: "test".to_string(), offset: Some(10), ..Default::default() };
    assert!(matches!(req.validate(), Err(BraveError::InvalidOffset)));
}

#[test]
fn test_valid_freshness_presets() {
    for freshness in &["pd", "pw", "pm", "py"] {
        let req = SearchRequest { q: "test".to_string(), freshness: Some((*freshness).to_string()), ..Default::default() };
        assert!(req.validate().is_ok(), "freshness {} should be valid", freshness);
    }
}

#[test]
fn test_valid_freshness_custom() {
    let req = SearchRequest {
        q: "test".to_string(),
        freshness: Some("2024-01-01to2024-12-31".to_string()),
        ..Default::default()
    };
    assert!(req.validate().is_ok());
}

#[test]
fn test_invalid_freshness() {
    let req = SearchRequest { q: "test".to_string(), freshness: Some("invalid".to_string()), ..Default::default() };
    assert!(matches!(req.validate(), Err(BraveError::InvalidFreshness(_))));
}

#[test]
fn test_defaults() {
    let req = SearchRequest { q: "test".to_string(), ..Default::default() };
    assert_eq!(req.get_count(), 20);
    assert_eq!(req.get_offset(), 0);
    assert_eq!(req.get_safesearch(), SafeSearch::Moderate);
}

#[test]
fn request_limits_at_their_edges() {
    let ok = SearchRequest { q: "a".repeat(400), count: Some(20), offset: Some(9), ..Default::default() };
    assert!(ok.validate().is_ok());
    let words = vec!["w"; 51].join(" ");
    assert!(matches!(SearchRequest { q: words, ..Default::default() }.validate(), Err(BraveError::InvalidQuery(_))));
    let words = vec!["w"; 50].join(" ");
    assert!(SearchRequest { q: words, ..Default::default() }.validate().is_ok());
    assert!(matches!(SearchRequest { q: "x".into(), count: Some(0), ..Default::default() }.validate(), Err(BraveError::InvalidCount)));
    for bad in ["2024-1-01to2024-12-31", "2024-01-01xx2024-12-31", "2024-01-01to2024-12-3a", "pdx"] {
        let req = SearchRequest { q: "x".into(), freshness: Some(bad.into()), ..Default::default() };
        assert!(matches!(req.validate(), Err(BraveError::InvalidFreshness(f)) if f == bad), "{bad}");
    }
}

#[test]
fn test_ttl_calculation() {
    assert_eq!(ttl_for_freshness(&Some("pd".to_string())), 3600);
    assert_eq!(ttl_for_freshness(&Some("pw".to_string())), 21600);
    assert_eq!(ttl_for_freshness(&Some("pm".to_string())), 43200);
    assert_eq!(ttl_for_freshness(&Some("py".to_string())), 86400);
    assert_eq!(ttl_for_freshness(&Some("custom".to_string())), 21600);
    assert_eq!(ttl_for_freshness(&None), 21600);
}

#[test]
fn test_client_new_missing_key() {
    let config = BraveConfig::default();
    assert!(matches!(config.check(), Err(BraveError::MissingApiKey)));
}

#[test]
fn brave_error_display() {
    assert!(BraveError::MissingApiKey.message().contains("API key"));
    assert!(BraveError::InvalidQuery("test".to_string()).message().contains("invalid query"));
}

fn fixture() -> BraveApiResponse {
    BraveApiResponse {
        query: QueryInfo { original: "test query".to_string(), more_results_available: true },
        web: Some(WebResults {
            results: vec![
                WebResult {
                    title: "Example Domain".to_string(),
                    source_url: "https://example.com".to_string(),
                    description: "This domain is for use in illustrative examples".to_string(),
                    extra_snippets: vec!["First snippet".to_string(), "Second snippet".to_string()],
                },
                WebResult {
                    title: "Test Page".to_string(),
                    source_url: "https://test.com".to_string(),
                    description: "A test page".to_string(),
                    extra_snippets: vec![],
                },
            ],
        }),
    }
}

#[test]
fn test_normalize_to_search_response() {
    let normalized = SearchResponse::from_api(fixture());
    assert_eq!(normalized.query.original, "test query");
    assert!(normalized.query.more_results_available);
    assert_eq!(normalized.results.len(), 2);
    let first = &normalized.results[0];
    assert_eq!(first.rank, 1);
    assert_eq!(first.title, "Example Domain");
    assert_eq!(first.url, "https://example.com");
    assert_eq!(first.source, "brave");
    assert_eq!(first.extra_snippets.len(), 2);
    let second = &normalized.results[1];
    assert_eq!(second.rank, 2);
    assert_eq!(second.extra_snippets.len(), 0);
}

#[test]
fn test_empty_results() {
    let raw = BraveApiResponse {
        query: QueryInfo { original: "test".to_string(), more_results_available: false },
        web: Some(WebResults { results: vec![] }),
    };
    let normalized = SearchResponse::from_api(raw);
    assert_eq!(normalized.results.len(), 0);
    assert!(!normalized.has_more());
}

#[test]
fn test_response_helper_methods() {
    let response = SearchResponse::from_api(fixture());
    assert!(response.has_more());
    assert_eq!(response.result_count(), 2);
}

fn result(title: &str, url: &str, rank: usize) -> SearchResult {
    SearchResult {
        title: title.into(),
        url: url.into(),
        description: "d".into(),
        extra_snippets: vec![],
        source: "test".into(),
        rank,
    }
}

#[test]
fn test_filter_by_domains() {
    let results = vec![
        result("Example 1", "https://example.com/page1", 1),
        result("Other", "https://other.com/page", 2),
        result("Example 2", "https://sub.example.com/page2", 3),
    ];
    let allowlist = vec!["example.com".to_string()];
    let filtered = filter_by_domains(results, &allowlist);
    assert_eq!(filtered.len(), 2);
    assert_eq!(filtered[0].url, "https://example.com/page1");
    assert_eq!(filtered[1].url, "https://sub.example.com/page2");
}

#[test]
fn filter_rejects_lookalike_and_unparsable_urls() {
    let results = vec![
        result("a", "https://notexample.com/", 1),
        result("b", "not a url", 2),
        result("c", "https://EXAMPLE.com/x", 3),
    ];
    let filtered = filter_by_domains(results, &vec!["example.com".to_string()]);
    assert_eq!(filtered.len(), 1);
    assert_eq!(filtered[0].rank, 3);
}

#[test]
fn test_invalid_safesearch() {
    assert!(matches!(parse_safesearch(Some("invalid")), Err(Error::InvalidInput(_))));
    assert_eq!(parse_safesearch(None), Ok(SafeSearch::Moderate));
    assert_eq!(parse_safesearch(Some("off")), Ok(SafeSearch::Off));
    assert_eq!(parse_safesearch(Some("strict")), Ok(SafeSearch::Strict));
}

#[test]
fn test_missing_api_key() {
    let config = AppConfig::default();
    assert!(config.require_brave_api_key().is_err());
}

#[test]
fn search_errors_map_to_kinds() {
    assert!(matches!(map_search_error(BraveError::AuthError), Error::BraveAuthError(_)));
    assert!(matches!(map_search_error(BraveError::RateLimited), Error::BraveRateLimited(_)));
    assert_eq!(map_search_error(BraveError::InvalidQuery("q".into())), Error::InvalidInput("q".into()));
    assert_eq!(map_search_error(BraveError::HttpError { status: 502 }), Error::HttpError("HTTP 502".into()));
    assert_eq!(map_search_error(BraveError::Timeout), Error::HttpError("request timeout".into()));
}

#[test]
fn search_entries_expire_by_text_order() {
    assert!(search_entry_fresh("2025-01-01T01:00:00+00:00", "2025-01-01T00:00:00+00:00"));
    assert!(!search_entry_fresh("2025-01-01T00:00:00+00:00", "2025-01-01T00:00:00+00:00"));
    assert!(search_entry_expired("2025-01-01T00:00:00+00:00", "2025-01-01T00:00:01+00:00"));
}

fn search_params(query: &str) -> WebSearchParams {
    WebSearchParams {
        query: query.into(),
        count: Some(20),
        offset: None,
        freshness: None,
        safesearch: None,
        country: None,
        search_lang: None,
        ui_lang: None,
        extra_snippets: None,
        goggles: None,
        force_refresh: false,
        domain_allowlist: None,
    }
}

#[test]
fn web_search_test_empty_query() {
    assert!(matches!(build_search_request(search_params("")), Err(Error::InvalidInput(_))));
}

#[test]
fn search_request_building() {
    let req = build_search_request(search_params("rust verus")).unwrap();
    assert_eq!(req.q, "rust verus");
    assert_eq!(req.safesearch, Some(SafeSearch::Moderate));
    let mut p = search_params("x");
    p.safesearch = Some("invalid".into());
    assert!(matches!(build_search_request(p), Err(Error::InvalidInput(_))));
    let mut p = search_params("x");
    p.count = Some(21);
    assert!(matches!(build_search_request(p), Err(Error::InvalidInput(m)) if m.contains("invalid count")));
}

#[test]
fn search_status_and_spacing() {
    assert_eq!(check_search_status(200), Ok(()));
    assert_eq!(check_search_status(401), Err(BraveError::AuthError));
    assert_eq!(check_search_status(403), Err(BraveError::AuthError));
    assert_eq!(check_search_status(429), Err(BraveError::RateLimited));
    assert_eq!(check_search_status(500), Err(BraveError::HttpError { status: 500 }));
    assert_eq!(check_search_status(404), Err(BraveError::HttpError { status: 404 }));
    assert_eq!(rate_limit_wait(250, 1000), 750);
    assert_eq!(rate_limit_wait(1500, 1000), 0);
}

#[test]
fn search_cache_key_is_sha256_hex() {
    assert_eq!(search_cache_key("a\nb\nc"), "ea7fb08b7a2dc4619ffb7c7bb38d95a2047935fa165d71b12efd3852a2e6d0cc");
    assert_ne!(search_cache_key("{\"q\":\"a\"}"), search_cache_key("{\"q\":\"b\"}"));
}
