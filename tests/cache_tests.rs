use mcp_web::cache_key::compute_cache_key;
use mcp_web::error::Error;
use mcp_web::migrations::{plan_migrations, schema_migrations};
use mcp_web::snapshots::{
    is_expired_at, is_fresh_at, CacheGetParams, CachePurgeParams, Snapshot, SnapshotStore,
};

fn make_test_snapshot(url: &str) -> Snapshot {
    let hash = compute_cache_key(url, "", "readable");
    Snapshot {
        hash,
        url: url.to_string(),
        final_url: url.to_string(),
        mode: "readable".to_string(),
        content_type: Some("text/html".to_string()),
        status_code: Some(200),
        fetched_at: "2025-01-20T00:00:00+00:00".to_string(),
        expires_at: None,
        etag: None,
        last_modified: None,
        raw_bytes: None,
        raw_truncated: false,
        title: Some("Test".to_string()),
        markdown: Some("# Test".to_string()),
        text: Some("Test".to_string()),
        links_json: None,
        extractor_name: Some("lectito-core".to_string()),
        extractor_version: Some("0.1.0".to_string()),
        siteconfig_id: None,
        extract_cfg_json: None,
        headers_json: None,
        fetch_ms: Some(100),
        extract_ms: Some(50),
    }
}

#[test]
fn test_hash_stability() {
    let hash1 = compute_cache_key("https://example.com", "", "readable");
    let hash2 = compute_cache_key("https://example.com", "", "readable");
    assert_eq!(hash1, hash2);
}

#[test]
fn test_hash_different_mode() {
    let hash_raw = compute_cache_key("https://example.com", "", "raw");
    let hash_readable = compute_cache_key("https://example.com", "", "readable");
    assert_ne!(hash_raw, hash_readable);
}

#[test]
fn test_hash_different_headers() {
    let hash1 = compute_cache_key("https://example.com", "gzip", "readable");
    let hash2 = compute_cache_key("https://example.com", "br", "readable");
    assert_ne!(hash1, hash2);
}

#[test]
fn test_hash_format() {
    let hash = compute_cache_key("https://example.com", "", "readable");
    assert_eq!(hash.len(), 64);
    assert!(hash.chars().all(|c| c.is_ascii_hexdigit()));
}

#[test]
fn cache_key_matches_known_digest() {
    assert_eq!(
        compute_cache_key("a", "b", "c"),
        "ea7fb08b7a2dc4619ffb7c7bb38d95a2047935fa165d71b12efd3852a2e6d0cc"
    );
    assert_eq!(
        compute_cache_key("", "", ""),
        "75a11da44c802486bc6f65640aa48a730f0f684c5c07a42ba3cd1735eb3fb070"
    );
    assert_eq!(
        compute_cache_key("https://example.com", "", "readable"),
        "4547a757be23b38dc43e3818537e230711710c6e9f6656e80a0f5c5351d21ebe"
    );
    assert_ne!(
        compute_cache_key("https://example.com", "", "readable"),
        compute_cache_key("https://example.org", "", "readable")
    );
}

#[test]
fn test_upsert_and_get() {
    let mut db = SnapshotStore::new();
    let snapshot = make_test_snapshot("https://example.com");
    db.upsert(snapshot.clone());
    let retrieved = db.get(&snapshot.hash).unwrap();
    assert_eq!(retrieved.url, snapshot.url);
    assert_eq!(retrieved.title, snapshot.title);
}

#[test]
fn test_get_missing() {
    let db = SnapshotStore::new();
    assert!(db.get("nonexistent").is_none());
}

#[test]
fn snapshots_test_purge_by_domain() {
    let mut db = SnapshotStore::new();
    db.upsert(make_test_snapshot("https://example.com/page1"));
    db.upsert(make_test_snapshot("https://other.com/page2"));
    let deleted = db.purge_by_domain("example.com");
    assert_eq!(deleted, 1);
    assert!(db.get(&compute_cache_key("https://example.com/page1", "", "readable")).is_none());
    assert!(db.get(&compute_cache_key("https://other.com/page2", "", "readable")).is_some());
}

#[test]
fn upsert_round_trips_every_field_and_last_write_wins() {
    let mut db = SnapshotStore::new();
    let mut s = make_test_snapshot("https://example.com/a");
    s.raw_bytes = Some(vec![1, 2, 3]);
    s.expires_at = Some("2999-01-01T00:00:00+00:00".to_string());
    db.upsert(s.clone());
    let got = db.get(&s.hash).unwrap();
    assert_eq!(format!("{got:?}"), format!("{s:?}"));

    let mut s2 = s.clone();
    s2.title = Some("Changed".to_string());
    s2.markdown = Some("# Changed".to_string());
    db.upsert(s2.clone());
    assert_eq!(db.len(), 1);
    let got = db.get(&s.hash).unwrap();
    assert_eq!(got.title.as_deref(), Some("Changed"));
    assert_eq!(got.markdown.as_deref(), Some("# Changed"));
}

#[test]
fn freshness_follows_expiry() {
    let mut db = SnapshotStore::new();
    let mut s = make_test_snapshot("https://example.com/fresh");
    s.expires_at = Some("2025-01-20T00:00:01+00:00".to_string());
    db.upsert(s.clone());
    assert!(db.is_fresh(&s.hash, "2025-01-20T00:00:00+00:00"));
    assert!(!db.is_fresh(&s.hash, "2025-01-20T00:00:02+00:00"));
    assert!(!db.is_fresh("missing", "2025-01-20T00:00:00+00:00"));
    assert!(is_fresh_at(&None, "2025-01-20T00:00:00+00:00"));
    assert!(!is_expired_at(&None, "2025-01-20T00:00:00+00:00"));
    assert_eq!(db.purge_expired("2025-01-20T00:00:02+00:00"), 1);
    assert_eq!(db.len(), 0);
}

#[test]
fn purge_lru_keeps_the_newest() {
    let mut db = SnapshotStore::new();
    let mut older = make_test_snapshot("https://example.com/old");
    older.fetched_at = "2025-01-01T00:00:00+00:00".to_string();
    let mut newer = make_test_snapshot("https://example.com/new");
    newer.fetched_at = "2025-02-01T00:00:00+00:00".to_string();
    db.upsert(newer.clone());
    db.upsert(older.clone());
    assert_eq!(db.purge_lru(1), 1);
    assert_eq!(db.len(), 1);
    assert!(db.get(&newer.hash).is_some());
    assert!(db.get(&older.hash).is_none());
    assert_eq!(db.purge_lru(5), 0);
    assert_eq!(db.purge_lru(0), 1);
    assert_eq!(db.len(), 0);
}

#[test]
fn test_get_impl_missing() {
    let cache = SnapshotStore::new();
    let params = CacheGetParams { hash: "nonexistent".to_string() };
    assert!(matches!(cache.get_output(&params), Err(Error::CacheMiss(h)) if h == "nonexistent"));
}

#[test]
fn test_get_impl_found() {
    let mut cache = SnapshotStore::new();
    let snapshot = make_test_snapshot("https://example.com");
    let hash = snapshot.hash.clone();
    cache.upsert(snapshot);
    let result = cache.get_output(&CacheGetParams { hash: hash.clone() });
    assert!(result.is_ok());
    assert_eq!(result.unwrap().snapshot.hash, hash);
}

#[test]
fn purge_test_purge_by_domain() {
    let mut cache = SnapshotStore::new();
    cache.upsert(make_test_snapshot("https://example.com/page1"));
    cache.upsert(make_test_snapshot("https://other.com/page2"));
    let params = CachePurgeParams { older_than_days: None, domain: Some("example.com".to_string()), max_entries: None };
    let output = cache.purge(&params, "2025-01-21T00:00:00+00:00").unwrap();
    assert_eq!(output.deleted, 1);
}

#[test]
fn test_purge_lru() {
    let mut cache = SnapshotStore::new();
    cache.upsert(make_test_snapshot("https://example.com/page1"));
    cache.upsert(make_test_snapshot("https://example.com/page2"));
    let params = CachePurgeParams { older_than_days: None, domain: None, max_entries: Some(1) };
    let output = cache.purge(&params, "2025-01-21T00:00:00+00:00").unwrap();
    assert_eq!(output.deleted, 1);
}

#[test]
fn test_purge_no_params() {
    let mut cache = SnapshotStore::new();
    let params = CachePurgeParams { older_than_days: None, domain: None, max_entries: None };
    assert!(matches!(cache.purge(&params, "2025-01-21T00:00:00+00:00"), Err(Error::InvalidInput(_))));
}

#[test]
fn test_migrations_idempotent() {
    let migrations = schema_migrations();
    let first = plan_migrations(&migrations, 0);
    assert_eq!(first, vec![0, 1]);
    let recorded = migrations[*first.last().unwrap()].version;
    let second = plan_migrations(&migrations, recorded);
    assert!(second.is_empty());
    assert!(migrations[0].sql.contains("CREATE TABLE IF NOT EXISTS snapshots"));
}

#[test]
fn test_migrations_version_tracking() {
    let migrations = schema_migrations();
    let plan = plan_migrations(&migrations, 0);
    assert_eq!(plan.len(), migrations.len());
    assert_eq!(plan_migrations(&migrations, 1), vec![1]);
}
