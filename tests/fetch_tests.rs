use mcp_web::error::Error;
use mcp_web::fetch::{check_head, transport_error, FetchConfig, FetchPipeline, FetchResponse, FetchStep};
use mcp_web::robots::{
    check_robots_body, classify_robots_response, robots_url_for, RobotsCache, RobotsEntry, RobotsError,
    RobotsResponse, RobotsStep, ROBOTS_TTL_MS,
};
use mcp_web::url::{canonicalize, WebUrl};
use std::time::Duration;

#[test]
fn test_fetch_config_default() {
    let config = FetchConfig::default();
    assert_eq!(config.user_agent, "mcp-web/0.1");
    assert_eq!(config.max_bytes, 5 * 1024 * 1024);
    assert_eq!(config.timeout, Duration::from_millis(20000));
    assert_eq!(config.max_redirects, 5);
    assert!(config.respect_robots);
}

#[test]
fn test_fetch_response_fields() {
    let response = FetchResponse {
        url: WebUrl::parse("https://example.com").unwrap(),
        final_url: WebUrl::parse("https://example.com/redirected").unwrap(),
        status: 200,
        content_type: Some("text/html".to_string()),
        bytes: Vec::new(),
        headers: Vec::new(),
        fetch_ms: 100,
    };
    assert_eq!(response.url.as_str(), "https://example.com/");
    assert_eq!(response.final_url.as_str(), "https://example.com/redirected");
    assert_eq!(response.status, 200);
    assert_eq!(response.content_type, Some("text/html".to_string()));
    assert_eq!(response.fetch_ms, 100);
}

#[test]
fn test_cached_robots_expiry() {
    let mut cached = RobotsEntry {
        robots_url: "https://example.com/robots.txt".to_string(),
        rules: "User-agent: *\nAllow: /".to_string(),
        fetched_at_ms: 1_000,
    };
    assert!(!cached.is_expired(1_000));
    cached.fetched_at_ms = 0;
    assert!(cached.is_expired(ROBOTS_TTL_MS + 1_000));
}

#[test]
fn test_robots_cache_new() {
    let cache = RobotsCache::new("mcp-web/0.1".to_string());
    assert_eq!(cache.user_agent(), "mcp-web/0.1");
}

#[test]
fn test_robots_cache_cleanup() {
    let mut cache = RobotsCache::new("mcp-web/0.1".to_string());
    cache.store("https://example.com/robots.txt".to_string(), "User-agent: *\nAllow: /".to_string(), 0);
    cache.cleanup_expired(ROBOTS_TTL_MS + 1_000);
    assert_eq!(cache.len(), 0);
}

#[test]
fn robots_cache_answers_from_fresh_entries_and_refetches_stale_ones() {
    let mut cache = RobotsCache::new("mcp-web".to_string());
    let url = canonicalize("https://example.com/private/page").unwrap();
    assert!(matches!(cache.check(&url, 10), RobotsStep::Fetch(u) if u == "https://example.com/robots.txt"));
    let r = cache.complete(
        &url,
        "https://example.com/robots.txt".to_string(),
        Ok("User-agent: *\nDisallow: /private".to_string()),
        10,
    );
    assert_eq!(
        r,
        Err(RobotsError::Disallowed {
            path: "/private/page".to_string(),
            robots_url: "https://example.com/robots.txt".to_string()
        })
    );
    let open = canonicalize("https://example.com/public").unwrap();
    assert!(matches!(cache.check(&open, 20), RobotsStep::Decided(Ok(true))));
    assert!(matches!(cache.check(&url, 20), RobotsStep::Decided(Err(RobotsError::Disallowed { .. }))));
    assert!(matches!(cache.check(&url, 10 + ROBOTS_TTL_MS + 1), RobotsStep::Fetch(_)));
}

#[test]
fn robots_failures_are_not_cached() {
    let mut cache = RobotsCache::new("mcp-web".to_string());
    let url = canonicalize("https://example.com/").unwrap();
    let r = cache.complete(&url, "https://example.com/robots.txt".to_string(), Err(RobotsError::FetchError("status 503".to_string())), 0);
    assert_eq!(r, Err(RobotsError::FetchError("status 503".to_string())));
    assert_eq!(cache.len(), 0);
    let r = cache.complete(&url, "https://example.com/robots.txt".to_string(), Ok(String::new()), 0);
    assert_eq!(r, Ok(true));
    assert_eq!(cache.len(), 1);
}

#[test]
fn robots_responses_are_classified() {
    assert_eq!(classify_robots_response(200, Some(10)), RobotsResponse::ReadBody);
    assert_eq!(classify_robots_response(200, None), RobotsResponse::ReadBody);
    assert_eq!(classify_robots_response(200, Some(2 * 1024 * 1024)), RobotsResponse::Failed(RobotsError::TooLarge));
    assert_eq!(classify_robots_response(404, None), RobotsResponse::NoRobots);
    assert_eq!(
        classify_robots_response(503, None),
        RobotsResponse::Failed(RobotsError::FetchError("status 503".to_string()))
    );
    assert_eq!(check_robots_body(1024 * 1024), Ok(()));
    assert_eq!(check_robots_body(1024 * 1024 + 1), Err(RobotsError::TooLarge));
    let url = canonicalize("http://Example.com:8080/a").unwrap();
    assert_eq!(robots_url_for(&url), "http://example.com/robots.txt");
}

#[test]
fn head_checks_status_and_declared_length() {
    assert_eq!(check_head(404, None, 10), Err(Error::HttpError("status 404".to_string())));
    assert_eq!(check_head(200, Some(11), 10), Err(Error::FetchTooLarge("11 bytes exceeds 10".to_string())));
    assert_eq!(check_head(204, Some(10), 10), Ok(()));
    assert_eq!(check_head(200, None, 10), Ok(()));
    assert_eq!(transport_error(true, "slow"), Error::FetchTimeout("slow".to_string()));
    assert_eq!(transport_error(false, "reset"), Error::HttpError("network error: reset".to_string()));
}

#[test]
fn pipeline_runs_canonicalize_robots_and_limits() {
    let mut config = FetchConfig::default();
    config.max_bytes = 4;
    let mut p = FetchPipeline::new(config);
    assert!(matches!(p.begin("   ", 0), Err(Error::InvalidUrl(_))));
    assert!(matches!(p.begin("file:///etc/passwd", 0), Err(Error::InvalidUrl(_))));
    let (url, robots_url) = match p.begin("Example.com/x", 0).unwrap() {
        FetchStep::Robots(u, r) => (u, r),
        FetchStep::Request(_) => panic!("robots.txt must be consulted first"),
    };
    assert_eq!(robots_url, "https://example.com/robots.txt");
    let url = p.robots_fetched(url, robots_url, Ok("User-agent: *\nDisallow: /admin".to_string()), 0).unwrap();
    assert!(matches!(p.begin("https://example.com/admin", 1), Err(Error::RobotsDisallowed(_))));
    let final_url = WebUrl::parse("https://example.com/x").unwrap();
    let headers = vec![("content-type".to_string(), "text/html".to_string())];
    let too_big = p.finish(url, final_url, 200, headers.clone(), vec![0; 5], 7);
    assert!(matches!(too_big, Err(Error::FetchTooLarge(_))));
    let url = match p.begin("https://example.com/x", 2).unwrap() {
        FetchStep::Request(u) => u,
        FetchStep::Robots(..) => panic!("robots.txt is cached"),
    };
    let final_url = WebUrl::parse("https://example.com/x").unwrap();
    let ok = p.finish(url, final_url, 200, headers, vec![1, 2, 3, 4], 7).unwrap();
    assert_eq!(ok.content_type.as_deref(), Some("text/html"));
    assert_eq!(ok.bytes, vec![1, 2, 3, 4]);
}

#[test]
fn pipeline_without_robots_requests_directly() {
    let mut config = FetchConfig::default();
    config.respect_robots = false;
    let p = FetchPipeline::new(config);
    assert!(matches!(p.begin("example.com", 0), Ok(FetchStep::Request(u)) if u.as_str() == "https://example.com/"));
}
