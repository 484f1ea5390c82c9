//! Decisions of a single-URL open: request validation, the cache key, and
//! the snapshot and output assembled from a fetch or a cache hit.
use vstd::prelude::*;
use crate::cache_key::{cache_key_of, compute_cache_key};
use crate::error::Error;
use crate::extract::ExtractConfig;
use crate::fetch::{FetchResponse, find_header, header_value};
use crate::snapshots::Snapshot;
use crate::text::{join2, same_text};

verus! {

/// Tuning passed through to the readability engine.
#[derive(Debug, Clone, Copy, PartialEq, Eq)]
pub struct ExtractTuning {
    pub char_threshold: Option<usize>,
    pub max_top_candidates: Option<usize>,
}

/// Parameters of an open request.
#[derive(Debug, Clone)]
pub struct WebOpenParams {
    pub url: String,
    /// `readable` or `raw`.
    pub mode: String,
    pub max_bytes: usize,
    pub force_refresh: bool,
    pub timeout_ms: u64,
    /// An `Accept` override; it is also the cache key's vary part.
    pub accept: Option<String>,
    pub extract: Option<ExtractTuning>,
    pub debug: bool,
}

/// A link of an open result.
#[derive(Debug, Clone)]
pub struct ExtractedLink {
    pub text: String,
    pub href: String,
}

/// Extraction diagnostics.
#[derive(Debug, Clone, Copy, PartialEq, Eq)]
pub struct ExtractionDiagnostics {
    pub char_count: usize,
    pub links_count: usize,
    pub extraction_time_ms: u64,
}

/// The result of an open request.
#[derive(Debug, Clone)]
pub struct WebOpenOutput {
    pub url: String,
    pub final_url: String,
    pub content_type: Option<String>,
    pub fetched_at: String,
    pub mode: String,
    pub raw: Option<String>,
    pub markdown: Option<String>,
    pub title: Option<String>,
    pub links: Vec<ExtractedLink>,
    pub hash: String,
    pub debug: Option<ExtractionDiagnostics>,
}

/// Whether a mode is one that open supports.
pub open spec fn supported_mode(m: Seq<char>) -> bool {
    m == "readable"@ || m == "raw"@
}

/// Refuses an empty URL and an unsupported mode with `InvalidInput`.
pub fn check_open_params(url: &str, mode: &str) -> (r: Result<(), Error>)
    ensures
        r is Ok <==> url@.len() > 0 && supported_mode(mode@),
        r is Err ==> r matches Err(Error::InvalidInput(_)),
{
    if url.unicode_len() == 0 {
        return Err(Error::InvalidInput(String::from_str("url cannot be empty")));
    }
    if !same_text(mode, "readable") && !same_text(mode, "raw") {
        return Err(Error::InvalidInput(join2("unsupported mode: ", mode)));
    }
    Ok(())
}

/// What the caller does for a valid open request.
#[derive(Debug)]
pub enum OpenStep {
    /// Look the hash up in the cache first; fetch on a miss.
    ReadCache(String),
    /// Fetch without reading the cache; the result is still written.
    Fetch(String),
}

/// The vary part of an open request's cache key: its `Accept` override.
pub open spec fn vary_of(accept: Option<String>) -> Seq<char> {
    match accept {
        Some(a) => a@,
        None => Seq::empty(),
    }
}

/// Validates an open request and computes its cache key from the URL as
/// given, the `Accept` override and the mode; a forced refresh skips the
/// cache read.
pub fn plan_open(params: &WebOpenParams) -> (r: Result<OpenStep, Error>)
    ensures
        r is Ok <==> params.url@.len() > 0 && supported_mode(params.mode@),
        r is Err ==> r matches Err(Error::InvalidInput(_)),
        r matches Ok(OpenStep::ReadCache(h)) ==> !params.force_refresh && h@ == cache_key_of(
            params.url@,
            vary_of(params.accept),
            params.mode@,
        ),
        r matches Ok(OpenStep::Fetch(h)) ==> params.force_refresh && h@ == cache_key_of(
            params.url@,
            vary_of(params.accept),
            params.mode@,
        ),
{
    if let Err(e) = check_open_params(params.url.as_str(), params.mode.as_str()) {
        return Err(e);
    }
    let vary = match &params.accept {
        Some(a) => a.as_str(),
        None => "",
    };
    proof {
        reveal_strlit("");
    }
    assert(vary@ == vary_of(params.accept));
    let hash = compute_cache_key(params.url.as_str(), vary, params.mode.as_str());
    if params.force_refresh {
        Ok(OpenStep::Fetch(hash))
    } else {
        Ok(OpenStep::ReadCache(hash))
    }
}

/// The engine tuning of a request: its own values, else the defaults.
pub fn extract_config_of(tuning: &Option<ExtractTuning>) -> (r: ExtractConfig)
    ensures
        match *tuning {
            Some(t) => r.char_threshold == t.char_threshold && r.max_top_candidates
                == t.max_top_candidates,
            None => r.char_threshold == Some(200usize) && r.max_top_candidates == Some(5usize),
        },
{
    match tuning {
        Some(t) => ExtractConfig {
            char_threshold: t.char_threshold,
            max_top_candidates: t.max_top_candidates,
        },
        None => ExtractConfig::default(),
    }
}

/// The output served from a cached snapshot.
pub fn output_from_snapshot(
    snapshot: Snapshot,
    hash: String,
    raw: Option<String>,
    links: Vec<ExtractedLink>,
) -> (r: WebOpenOutput)
    ensures
        r.url == snapshot.url && r.final_url == snapshot.final_url,
        r.content_type == snapshot.content_type && r.fetched_at == snapshot.fetched_at,
        r.mode == snapshot.mode && r.markdown == snapshot.markdown && r.title == snapshot.title,
        r.raw == raw && r.links == links && r.hash == hash && r.debug is None,
{
    WebOpenOutput {
        url: snapshot.url,
        final_url: snapshot.final_url,
        content_type: snapshot.content_type,
        fetched_at: snapshot.fetched_at,
        mode: snapshot.mode,
        raw,
        markdown: snapshot.markdown,
        title: snapshot.title,
        links,
        hash,
        debug: None,
    }
}

/// The extracted parts of a fetched page.
#[derive(Debug, Clone)]
pub struct OpenContent {
    pub title: Option<String>,
    pub markdown: Option<String>,
    pub raw: Option<String>,
    pub links_json: String,
    pub extract_ms: Option<i64>,
}

/// The snapshot written after a fetch: provenance from the response, the
/// `etag` and `last-modified` headers, the raw text's bytes, truncation when
/// the body reached the ceiling, and the extractor's name and version.
pub fn snapshot_from_fetch(
    hash: &str,
    response: &FetchResponse,
    mode: &str,
    fetched_at: &str,
    content: &OpenContent,
    max_bytes: usize,
) -> (r: Snapshot)
    ensures
        r.hash@ == hash@,
        r.url@ == response.url@.href,
        r.final_url@ == response.final_url@.href,
        r.mode@ == mode@,
        r.status_code == Some(response.status as i32),
        r.fetched_at@ == fetched_at@,
        r.expires_at is None,
        r.raw_truncated == (response.bytes@.len() >= max_bytes),
        r.fetch_ms == Some(response.fetch_ms as i64),
        r.extract_ms == content.extract_ms,
        match (r.etag, header_value(response.headers@, "etag"@)) {
            (Some(v), Some(w)) => v@ == w,
            (None, None) => true,
            _ => false,
        },
        match (r.last_modified, header_value(response.headers@, "last-modified"@)) {
            (Some(v), Some(w)) => v@ == w,
            (None, None) => true,
            _ => false,
        },
        crate::snapshots::opt_text(r.title) == crate::snapshots::opt_text(content.title),
        crate::snapshots::opt_text(r.markdown) == crate::snapshots::opt_text(content.markdown),
        crate::snapshots::opt_text(r.content_type) == crate::snapshots::opt_text(response.content_type),
        r.links_json matches Some(j) && j@ == content.links_json@,
        r.text is None,
        r.extractor_name matches Some(n) && n@ == "lectito-core"@,
        r.extractor_version matches Some(v) && v@ == "0.2.0"@,
        match (r.raw_bytes, content.raw) {
            (Some(b), Some(t)) => b@ == vstd::utf8::encode_utf8(t@),
            (None, None) => true,
            _ => false,
        },
{
    let raw_bytes = match &content.raw {
        Some(t) => Some(t.as_str().as_bytes_vec()),
        None => None,
    };
    Snapshot {
        hash: String::from_str(hash),
        url: response.url.to_string(),
        final_url: response.final_url.to_string(),
        mode: String::from_str(mode),
        content_type: crate::text::copy_opt(&response.content_type),
        status_code: Some(response.status as i32),
        fetched_at: String::from_str(fetched_at),
        expires_at: None,
        etag: find_header(&response.headers, "etag"),
        last_modified: find_header(&response.headers, "last-modified"),
        raw_bytes,
        raw_truncated: response.bytes.len() >= max_bytes,
        title: crate::text::copy_opt(&content.title),
        markdown: crate::text::copy_opt(&content.markdown),
        text: None,
        links_json: Some(content.links_json.clone()),
        extractor_name: Some(String::from_str("lectito-core")),
        extractor_version: Some(String::from_str("0.2.0")),
        siteconfig_id: None,
        extract_cfg_json: None,
        headers_json: None,
        fetch_ms: Some(response.fetch_ms as i64),
        extract_ms: content.extract_ms,
    }
}

} // verus!
