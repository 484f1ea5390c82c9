use mcp_web::batch::{BatchItemStatus, BatchScheduler, DEFAULT_MAX_CONCURRENCY};
use mcp_web::error::Error;
use mcp_web::open::{check_open_params, plan_open, OpenStep, WebOpenParams};
use mcp_web::cache_key::compute_cache_key;

#[test]
fn test_batch_open_empty_urls() {
    assert!(matches!(BatchScheduler::new(0, Some(4), false), Err(Error::InvalidInput(_))));
}

#[test]
fn test_batch_open_invalid_concurrency() {
    assert!(matches!(BatchScheduler::new(1, Some(0), false), Err(Error::InvalidInput(_))));
}

#[test]
fn test_default_max_concurrency() {
    assert_eq!(DEFAULT_MAX_CONCURRENCY, 4);
    let s = BatchScheduler::new(3, None, false).unwrap();
    assert_eq!(s.max_concurrency(), 4);
    let s = BatchScheduler::new(3, Some(200), false).unwrap();
    assert_eq!(s.max_concurrency(), 16);
}

#[test]
fn scheduler_never_exceeds_the_ceiling() {
    let mut s = BatchScheduler::new(10, Some(3), false).unwrap();
    let mut peak = 0;
    let mut running: Vec<usize> = Vec::new();
    let mut finished = 0;
    while !s.is_done() {
        while let Some(i) = s.start_next() {
            running.push(i);
            peak = peak.max(s.in_flight());
        }
        assert!(s.in_flight() <= 3);
        let i = running.remove(0);
        let status = if i % 4 == 0 { BatchItemStatus::Failed } else { BatchItemStatus::Success };
        s.finish(i, status);
        finished += 1;
    }
    assert_eq!(peak, 3);
    assert_eq!(finished, 10);
    let summary = s.summary();
    assert_eq!(summary.total, 10);
    assert_eq!(summary.failed, 3);
    assert_eq!(summary.succeeded, 7);
    assert_eq!(summary.cached, 0);
}

#[test]
fn fail_fast_stops_starting_new_work() {
    let mut s = BatchScheduler::new(5, Some(2), true).unwrap();
    assert_eq!(s.start_next(), Some(0));
    assert_eq!(s.start_next(), Some(1));
    assert_eq!(s.start_next(), None);
    s.finish(0, BatchItemStatus::Success);
    s.finish(1, BatchItemStatus::Failed);
    assert!(s.is_stopped());
    assert_eq!(s.start_next(), None);
    assert!(s.is_done());
    let summary = s.summary();
    assert_eq!(summary.total, 2);
    assert_eq!(summary.succeeded, 1);
    assert_eq!(summary.failed, 1);
    assert_eq!(s.outcome_list(), &vec![(0, BatchItemStatus::Success), (1, BatchItemStatus::Failed)]);
}

fn open_params(url: &str, mode: &str) -> WebOpenParams {
    WebOpenParams {
        url: url.into(),
        mode: mode.into(),
        max_bytes: 5 * 1024 * 1024,
        force_refresh: false,
        timeout_ms: 20000,
        accept: None,
        extract: None,
        debug: false,
    }
}

#[test]
fn test_open_empty_url() {
    assert!(plan_open(&open_params("", "readable")).is_err());
}

#[test]
fn open_plans_cache_reads_and_refreshes() {
    assert!(matches!(check_open_params("https://e.com", "rendered"), Err(Error::InvalidInput(_))));
    let key = compute_cache_key("https://e.com", "", "raw");
    assert!(matches!(plan_open(&open_params("https://e.com", "raw")), Ok(OpenStep::ReadCache(h)) if h == key));
    let mut p = open_params("https://e.com", "raw");
    p.force_refresh = true;
    p.accept = Some("text/html".into());
    let key = compute_cache_key("https://e.com", "text/html", "raw");
    assert!(matches!(plan_open(&p), Ok(OpenStep::Fetch(h)) if h == key));
}

#[test]
fn error_test_error_display() {
    let err = Error::CacheMiss("abc123".to_string());
    assert!(err.to_string().contains("CACHE_MISS"));
    assert!(err.to_string().contains("abc123"));
}

#[test]
fn test_error_to_mcp_error() {
    let err = Error::CacheMiss("abc123".to_string());
    assert_eq!(err.code(), -32001);
    assert_eq!(Error::RenderDisabled.to_string(), "RENDER_DISABLED");
    assert_eq!(Error::InvalidHash.code(), -32002);
}
