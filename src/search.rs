//! Search provider requests and responses: validation, cache lifetime,
//! normalization of the provider's answer and filtering by domain.
//!
//! The HTTP exchange with the provider and the JSON encoding happen in the
//! caller.
use vstd::prelude::*;
use vstd::utf8::encode_utf8;
use crate::error::Error;
use crate::fetch::{duration_from_ms, duration_of_ms};
use crate::text::{decimal_of, decimal_text, ends_with_seq, ends_with_text, join2, same_text, text_less, text_lt};
use crate::url::{WebUrl, url_parse_of};
use crate::cache_key::{hex_encode, hex_of, sha256, sha256_of};

verus! {

/// What `str::split_whitespace` followed by `count` returns.
pub uninterp spec fn word_count_of(s: Seq<char>) -> nat;

/// Relies on `str::split_whitespace`: the number of whitespace-separated words.
#[verifier::external_body]
fn word_count(s: &str) -> (r: usize)
    ensures
        r == word_count_of(s@),
{
    s.split_whitespace().count()
}

/// Safe-search filtering levels.
#[derive(Debug, Clone, Copy, PartialEq, Eq, Structural)]
pub enum SafeSearch {
    Off,
    Moderate,
    Strict,
}

/// Failures of the search provider client.
#[derive(Debug, Clone, PartialEq, Eq)]
pub enum BraveError {
    /// No subscription token is configured.
    MissingApiKey,
    /// The query is empty or too long.
    InvalidQuery(String),
    /// The result count is outside 1 to 20.
    InvalidCount,
    /// The page offset is above 9.
    InvalidOffset,
    /// The freshness filter is malformed.
    InvalidFreshness(String),
    /// The provider refused the credentials.
    AuthError,
    /// The provider is rate limiting.
    RateLimited,
    /// The provider answered with an error status.
    HttpError { status: u16 },
    /// The request timed out.
    Timeout,
    /// A network failure.
    Network(String),
    /// The answer could not be decoded.
    Parse(String),
}

impl BraveError {
    /// The error's text.
    pub fn message(&self) -> (r: String)
        ensures
            r@ == match *self {
                BraveError::MissingApiKey => "missing API key: BRAVE_API_KEY not set"@,
                BraveError::InvalidQuery(m) => "invalid query: "@ + m@,
                BraveError::InvalidCount => "invalid count: must be 1-20"@,
                BraveError::InvalidOffset => "invalid offset: must be 0-9"@,
                BraveError::InvalidFreshness(f) => "invalid freshness format: "@ + f@,
                BraveError::AuthError => "authentication failed: invalid API key"@,
                BraveError::RateLimited => "rate limited: too many requests"@,
                BraveError::HttpError { status } => "HTTP error: "@ + decimal_of(status as nat),
                BraveError::Timeout => "request timeout"@,
                BraveError::Network(m) => "network error: "@ + m@,
                BraveError::Parse(m) => "parse error: "@ + m@,
            },
    {
        match self {
            BraveError::MissingApiKey => String::from_str("missing API key: BRAVE_API_KEY not set"),
            BraveError::InvalidQuery(m) => join2("invalid query: ", m.as_str()),
            BraveError::InvalidCount => String::from_str("invalid count: must be 1-20"),
            BraveError::InvalidOffset => String::from_str("invalid offset: must be 0-9"),
            BraveError::InvalidFreshness(f) => join2("invalid freshness format: ", f.as_str()),
            BraveError::AuthError => String::from_str("authentication failed: invalid API key"),
            BraveError::RateLimited => String::from_str("rate limited: too many requests"),
            BraveError::HttpError { status } => {
                let n = decimal_text(*status as u64);
                join2("HTTP error: ", n.as_str())
            },
            BraveError::Timeout => String::from_str("request timeout"),
            BraveError::Network(m) => join2("network error: ", m.as_str()),
            BraveError::Parse(m) => join2("parse error: ", m.as_str()),
        }
    }
}

/// Search request parameters.
#[derive(Debug, Clone)]
pub struct SearchRequest {
    /// The query: at most 400 bytes and 50 words.
    pub q: String,
    /// Number of results, 1 to 20.
    pub count: Option<u8>,
    /// Page offset, 0 to 9.
    pub offset: Option<u8>,
    /// `pd`, `pw`, `pm`, `py` or `YYYY-MM-DDtoYYYY-MM-DD`.
    pub freshness: Option<String>,
    pub safesearch: Option<SafeSearch>,
    pub country: Option<String>,
    pub search_lang: Option<String>,
    pub ui_lang: Option<String>,
    pub extra_snippets: Option<bool>,
    pub goggles: Option<String>,
    pub spellcheck: Option<bool>,
}

impl Default for SearchRequest {
    fn default() -> (r: SearchRequest)
        ensures
            r.q@.len() == 0,
            r.count is None,
            r.offset is None,
            r.freshness is None,
            r.safesearch is None,
    {
        SearchRequest {
            q: String::new(),
            count: None,
            offset: None,
            freshness: None,
            safesearch: None,
            country: None,
            search_lang: None,
            ui_lang: None,
            extra_snippets: None,
            goggles: None,
            spellcheck: None,
        }
    }
}

/// Whether a character is an ASCII digit.
pub open spec fn is_digit(c: char) -> bool {
    '0' <= c && c <= '9'
}

/// Whether ten characters have the shape `YYYY-MM-DD`.
pub open spec fn date_shape(s: Seq<char>) -> bool {
    &&& s.len() == 10
    &&& forall|i: int| 0 <= i < 10 && i != 4 && i != 7 ==> is_digit(#[trigger] s[i])
    &&& s[4] == '-'
    &&& s[7] == '-'
}

/// Whether a freshness filter is well formed: a preset, or two dates joined
/// by `to`.
pub open spec fn valid_freshness(f: Seq<char>) -> bool {
    ||| f == "pd"@
    ||| f == "pw"@
    ||| f == "pm"@
    ||| f == "py"@
    ||| (f.len() == 22 && date_shape(f.subrange(0, 10)) && f[10] == 't' && f[11] == 'o'
        && date_shape(f.subrange(12, 22)))
}

/// Whether the ten characters of `s` from `at` have the shape `YYYY-MM-DD`.
fn is_date_at(s: &str, at: usize) -> (r: bool)
    requires
        at + 10 <= s@.len(),
        s@.len() <= usize::MAX,
    ensures
        r == date_shape(s@.subrange(at as int, at + 10)),
{
    let ghost d = s@.subrange(at as int, at + 10);
    let mut i: usize = 0;
    while i < 10
        invariant
            at + 10 <= s@.len(),
            s@.len() <= usize::MAX,
            d == s@.subrange(at as int, at + 10),
            i <= 10,
            forall|k: int| 0 <= k < i ==> (if k == 4 || k == 7 {
                d[k] == '-'
            } else {
                is_digit(d[k])
            }),
        decreases 10 - i,
    {
        let c = s.get_char(at + i);
        assert(d[i as int] == c);
        if i == 4 || i == 7 {
            if c != '-' {
                return false;
            }
        } else if !('0' <= c && c <= '9') {
            assert(!is_digit(d[i as int]));
            return false;
        }
        i = i + 1;
    }
    true
}

/// Whether a freshness filter is well formed.
pub fn is_valid_freshness(f: &str) -> (r: bool)
    ensures
        r == valid_freshness(f@),
{
    if same_text(f, "pd") || same_text(f, "pw") || same_text(f, "pm") || same_text(f, "py") {
        return true;
    }
    if f.unicode_len() != 22 {
        return false;
    }
    is_date_at(f, 0) && f.get_char(10) == 't' && f.get_char(11) == 'o' && is_date_at(f, 12)
}

/// The first problem of a request, checked in this order: the query (empty,
/// over 400 bytes, over 50 words), the count, the offset, the freshness.
pub open spec fn request_problem(r: SearchRequest) -> Option<BraveError> {
    if r.q@.len() == 0 || encode_utf8(r.q@).len() > 400 || word_count_of(r.q@) > 50 {
        Some(BraveError::InvalidQuery(arbitrary()))
    } else if r.count is Some && !(1 <= r.count->Some_0 <= 20) {
        Some(BraveError::InvalidCount)
    } else if r.offset is Some && r.offset->Some_0 > 9 {
        Some(BraveError::InvalidOffset)
    } else if r.freshness is Some && !valid_freshness(r.freshness->Some_0@) {
        Some(BraveError::InvalidFreshness(r.freshness->Some_0))
    } else {
        None
    }
}

impl SearchRequest {
    /// Checks the request's parameters.
    pub fn validate(&self) -> (r: Result<(), BraveError>)
        ensures
            match request_problem(*self) {
                None => r is Ok,
                Some(BraveError::InvalidQuery(_)) => r matches Err(BraveError::InvalidQuery(_)),
                Some(BraveError::InvalidFreshness(f)) => (r matches Err(BraveError::InvalidFreshness(g))
                    && g@ == f@),
                Some(e) => r == Err::<(), BraveError>(e),
            },
    {
        if self.q.as_str().unicode_len() == 0 {
            return Err(BraveError::InvalidQuery(String::from_str("query cannot be empty")));
        }
        if self.q.as_str().as_bytes().len() > 400 {
            return Err(BraveError::InvalidQuery(String::from_str("query too long (max 400 chars)")));
        }
        if word_count(self.q.as_str()) > 50 {
            return Err(BraveError::InvalidQuery(String::from_str("query too long (max 50 words)")));
        }
        if let Some(count) = self.count {
            if !(1 <= count && count <= 20) {
                return Err(BraveError::InvalidCount);
            }
        }
        if let Some(offset) = self.offset {
            if offset > 9 {
                return Err(BraveError::InvalidOffset);
            }
        }
        if let Some(freshness) = &self.freshness {
            if !is_valid_freshness(freshness.as_str()) {
                return Err(BraveError::InvalidFreshness(freshness.clone()));
            }
        }
        Ok(())
    }

    /// The result count, 20 unless given.
    pub fn get_count(&self) -> (r: u8)
        ensures
            r == match self.count {
                Some(c) => c,
                None => 20u8,
            },
    {
        match self.count {
            Some(c) => c,
            None => 20,
        }
    }

    /// The page offset, 0 unless given.
    pub fn get_offset(&self) -> (r: u8)
        ensures
            r == match self.offset {
                Some(o) => o,
                None => 0u8,
            },
    {
        match self.offset {
            Some(o) => o,
            None => 0,
        }
    }

    /// The safe-search level, moderate unless given.
    pub fn get_safesearch(&self) -> (r: SafeSearch)
        ensures
            r == match self.safesearch {
                Some(s) => s,
                None => SafeSearch::Moderate,
            },
    {
        match self.safesearch {
            Some(s) => s,
            None => SafeSearch::Moderate,
        }
    }
}

/// How long search results stay cached, in seconds, by freshness filter.
pub open spec fn ttl_of(freshness: Option<Seq<char>>) -> i64 {
    match freshness {
        Some(f) => if f == "pd"@ {
            3600
        } else if f == "pw"@ {
            21600
        } else if f == "pm"@ {
            43200
        } else if f == "py"@ {
            86400
        } else {
            21600
        },
        None => 21600,
    }
}

/// The cache lifetime of results for a freshness filter: an hour for the past
/// day, six hours for the past week, twelve for the past month, a day for the
/// past year, six hours otherwise.
pub fn ttl_for_freshness(freshness: &Option<String>) -> (r: i64)
    ensures
        r == ttl_of(crate::url::opt_view(*freshness)),
{
    match freshness {
        Some(f) => {
            let f = f.as_str();
            if same_text(f, "pd") {
                3600
            } else if same_text(f, "pw") {
                21600
            } else if same_text(f, "pm") {
                43200
            } else if same_text(f, "py") {
                86400
            } else {
                21600
            }
        },
        None => 21600,
    }
}

/// Reads a safe-search level: `off`, `moderate` (also when absent) or
/// `strict`; anything else is `InvalidInput`.
pub fn parse_safesearch(s: Option<&str>) -> (r: Result<SafeSearch, Error>)
    ensures
        match s {
            None => r == Ok::<SafeSearch, Error>(SafeSearch::Moderate),
            Some(x) => if x@ == "off"@ {
                r == Ok::<SafeSearch, Error>(SafeSearch::Off)
            } else if x@ == "moderate"@ {
                r == Ok::<SafeSearch, Error>(SafeSearch::Moderate)
            } else if x@ == "strict"@ {
                r == Ok::<SafeSearch, Error>(SafeSearch::Strict)
            } else {
                r matches Err(Error::InvalidInput(_))
            },
        },
{
    match s {
        None => Ok(SafeSearch::Moderate),
        Some(x) => if same_text(x, "off") {
            Ok(SafeSearch::Off)
        } else if same_text(x, "moderate") {
            Ok(SafeSearch::Moderate)
        } else if same_text(x, "strict") {
            Ok(SafeSearch::Strict)
        } else {
            Err(Error::InvalidInput(join2("invalid safesearch: ", x)))
        },
    }
}

/// Maps a provider failure to the error kind reported to callers.
pub fn map_search_error(e: BraveError) -> (r: Error)
    ensures
        e matches BraveError::AuthError ==> r matches Error::BraveAuthError(_),
        e matches BraveError::RateLimited ==> r matches Error::BraveRateLimited(_),
        e matches BraveError::InvalidQuery(m) ==> (r matches Error::InvalidInput(x) && x@ == m@),
        e matches BraveError::HttpError { status } ==> (r matches Error::HttpError(x) && x@ == "HTTP "@
            + decimal_of(status as nat)),
        !(e matches BraveError::AuthError || e matches BraveError::RateLimited
            || e matches BraveError::InvalidQuery(_)) ==> r matches Error::HttpError(_),
{
    match e {
        BraveError::AuthError => Error::BraveAuthError(e.message()),
        BraveError::RateLimited => Error::BraveRateLimited(e.message()),
        BraveError::InvalidQuery(m) => Error::InvalidInput(m),
        BraveError::HttpError { status } => {
            let n = decimal_text(status as u64);
            Error::HttpError(join2("HTTP ", n.as_str()))
        },
        _ => Error::HttpError(e.message()),
    }
}

/// Search provider client settings.
#[derive(Debug)]
pub struct BraveConfig {
    pub api_key: String,
    pub base_url: String,
    pub timeout: core::time::Duration,
    pub user_agent: String,
}

impl BraveConfig {
    /// No key, the public endpoint, a 10 s timeout, user agent `mcp-web/0.1`.
    pub fn default() -> (r: BraveConfig)
        ensures
            r.api_key@.len() == 0,
            r.base_url@ == "https://api.search.brave.com/res/v1"@,
            r.timeout == duration_of_ms(10_000),
            r.user_agent@ == "mcp-web/0.1"@,
    {
        BraveConfig {
            api_key: String::new(),
            base_url: String::from_str("https://api.search.brave.com/res/v1"),
            timeout: duration_from_ms(10_000),
            user_agent: String::from_str("mcp-web/0.1"),
        }
    }

    /// Refuses settings without a key.
    pub fn check(&self) -> (r: Result<(), BraveError>)
        ensures
            r is Ok <==> self.api_key@.len() > 0,
            r is Err ==> r == Err::<(), BraveError>(BraveError::MissingApiKey),
    {
        if self.api_key.as_str().unicode_len() == 0 {
            Err(BraveError::MissingApiKey)
        } else {
            Ok(())
        }
    }
}

/// The provider's query echo.
#[derive(Debug, Clone)]
pub struct QueryInfo {
    pub original: String,
    pub more_results_available: bool,
}

/// One result as the provider sends it.
#[derive(Debug, Clone)]
pub struct WebResult {
    pub title: String,
    pub source_url: String,
    pub description: String,
    pub extra_snippets: Vec<String>,
}

/// The provider's result list.
#[derive(Debug, Clone)]
pub struct WebResults {
    pub results: Vec<WebResult>,
}

/// The provider's answer.
#[derive(Debug, Clone)]
pub struct BraveApiResponse {
    pub query: QueryInfo,
    pub web: Option<WebResults>,
}

/// A normalized result.
#[derive(Debug, Clone)]
pub struct SearchResult {
    pub title: String,
    pub url: String,
    pub description: String,
    pub extra_snippets: Vec<String>,
    pub source: String,
    pub rank: usize,
}

/// Normalized query metadata.
#[derive(Debug, Clone)]
pub struct QueryMeta {
    pub original: String,
    pub more_results_available: bool,
}

/// Diagnostics of a search.
#[derive(Debug, Clone)]
pub struct DebugInfo {
    pub request_id: Option<String>,
}

/// A normalized answer.
#[derive(Debug, Clone)]
pub struct SearchResponse {
    pub results: Vec<SearchResult>,
    pub query: QueryMeta,
    pub debug: DebugInfo,
}

/// Whether `r` is the normalized form of the provider's `w` at position `i`.
pub open spec fn normalized(w: WebResult, r: SearchResult, i: int) -> bool {
    &&& r.title == w.title
    &&& r.url == w.source_url
    &&& r.description == w.description
    &&& r.extra_snippets == w.extra_snippets
    &&& r.source@ == "brave"@
    &&& r.rank == i + 1
}

impl SearchResponse {
    /// Normalizes the provider's answer: results keep their order, are ranked
    /// from 1 and carry the source `brave`; a missing result list is empty.
    pub fn from_api(raw: BraveApiResponse) -> (r: SearchResponse)
        ensures
            r.query.original == raw.query.original,
            r.query.more_results_available == raw.query.more_results_available,
            r.debug.request_id is None,
            match raw.web {
                Some(w) => r.results@.len() == w.results@.len() && forall|i: int|
                    0 <= i < w.results@.len() ==> normalized(
                        w.results@[i],
                        #[trigger] r.results@[i],
                        i,
                    ),
                None => r.results@.len() == 0,
            },
    {
        let mut results: Vec<SearchResult> = Vec::new();
        match raw.web {
            Some(w) => {
                let ghost all = w.results@;
                let mut rest = w.results;
                let n = rest.len();
                let mut i: usize = 0;
                while rest.len() > 0
                    invariant
                        n == all.len(),
                        i <= all.len(),
                        rest@ == all.subrange(i as int, all.len() as int),
                        results@.len() == i,
                        forall|k: int| 0 <= k < i ==> normalized(all[k], #[trigger] results@[k], k),
                    decreases rest@.len(),
                {
                    let item = rest.remove(0);
                    results.push(
                        SearchResult {
                            title: item.title,
                            url: item.source_url,
                            description: item.description,
                            extra_snippets: item.extra_snippets,
                            source: String::from_str("brave"),
                            rank: i + 1,
                        },
                    );
                    i = i + 1;
                }
            },
            None => {},
        }
        SearchResponse {
            results,
            query: QueryMeta {
                original: raw.query.original,
                more_results_available: raw.query.more_results_available,
            },
            debug: DebugInfo { request_id: None },
        }
    }

    /// Whether the provider has more results.
    pub fn has_more(&self) -> (r: bool)
        ensures
            r == self.query.more_results_available,
    {
        self.query.more_results_available
    }

    /// The number of results.
    pub fn result_count(&self) -> (r: usize)
        ensures
            r == self.results@.len(),
    {
        self.results.len()
    }
}

/// Whether a host is one of the domains or a subdomain of one.
pub open spec fn host_in(host: Seq<char>, domains: Seq<String>) -> bool {
    exists|i: int|
        0 <= i < domains.len() && (host == (#[trigger] domains[i])@ || ends_with_seq(
            host,
            "."@ + domains[i]@,
        ))
}

/// Whether a result's URL parses and has a host among the domains.
pub open spec fn result_allowed(url: Seq<char>, domains: Seq<String>) -> bool {
    match url_parse_of(url) {
        Some(v) => match v.host {
            Some(h) => host_in(h, domains),
            None => false,
        },
        None => false,
    }
}

/// Whether `host` is one of `domains` or a subdomain of one.
fn host_matches(host: &str, domains: &Vec<String>) -> (r: bool)
    ensures
        r == host_in(host@, domains@),
{
    let mut i: usize = 0;
    while i < domains.len()
        invariant
            i <= domains@.len(),
            forall|k: int|
                0 <= k < i ==> !(host@ == (#[trigger] domains@[k])@ || ends_with_seq(
                    host@,
                    "."@ + domains@[k]@,
                )),
        decreases domains@.len() - i,
    {
        let d = domains[i].as_str();
        let dotted = join2(".", d);
        if same_text(host, d) || ends_with_text(host, dotted.as_str()) {
            return true;
        }
        i = i + 1;
    }
    false
}

/// Keeps the results whose URL's host is an allowed domain or a subdomain of
/// one, in their order.
pub fn filter_by_domains(results: Vec<SearchResult>, allowlist: &Vec<String>) -> (r: Vec<SearchResult>)
    ensures
        r@ == results@.filter(|x: SearchResult| result_allowed(x.url@, allowlist@)),
{
    let ghost keep = |x: SearchResult| result_allowed(x.url@, allowlist@);
    let ghost all = results@;
    let mut rest = results;
    let mut kept: Vec<SearchResult> = Vec::new();
    let ghost mut done: int = 0;
    while rest.len() > 0
        invariant
            forall|x: SearchResult| #[trigger] keep(x) == result_allowed(x.url@, allowlist@),
            0 <= done <= all.len(),
            rest@ == all.subrange(done, all.len() as int),
            kept@ == all.subrange(0, done).filter(keep),
        decreases rest@.len(),
    {
        let e = rest.remove(0);
        proof {
            reveal(Seq::filter);
            let s1 = all.subrange(0, done + 1);
            assert(s1.drop_last() =~= all.subrange(0, done));
            assert(s1.last() == e);
        }
        let allowed = match WebUrl::parse(e.url.as_str()) {
            Ok(u) => match u.host_str() {
                Some(h) => host_matches(h, allowlist),
                None => false,
            },
            Err(_) => false,
        };
        if allowed {
            kept.push(e);
        }
        proof {
            done = done + 1;
        }
    }
    assert(all.subrange(0, done) =~= all);
    kept
}

/// Metadata of a cached search answer.
#[derive(Debug, Clone)]
pub struct SearchCacheMeta {
    pub query_json: String,
    pub fetched_at: String,
    pub expires_at: String,
}

/// Whether a cached search answer with this expiry is fresh at `now`: its
/// expiry sorts after `now`.
pub fn search_entry_fresh(expires_at: &str, now: &str) -> (r: bool)
    ensures
        r == text_lt(now@, expires_at@),
{
    text_less(now, expires_at)
}

/// Whether a cached search answer has expired at `now`: its expiry sorts
/// before `now`.
pub fn search_entry_expired(expires_at: &str, now: &str) -> (r: bool)
    ensures
        r == text_lt(expires_at@, now@),
{
    text_less(expires_at, now)
}

/// Refuses a provider status: 401 and 403 are `AuthError`, 429 is
/// `RateLimited`, any other 4xx or 5xx is `HttpError`.
pub fn check_search_status(status: u16) -> (r: Result<(), BraveError>)
    ensures
        (status == 401 || status == 403) ==> r == Err::<(), BraveError>(BraveError::AuthError),
        status == 429 ==> r == Err::<(), BraveError>(BraveError::RateLimited),
        (400 <= status <= 599 && status != 401 && status != 403 && status != 429) ==> r == Err::<
            (),
            BraveError,
        >(BraveError::HttpError { status }),
        !(400 <= status <= 599) ==> r is Ok,
{
    if status == 401 || status == 403 {
        Err(BraveError::AuthError)
    } else if status == 429 {
        Err(BraveError::RateLimited)
    } else if 400 <= status && status <= 599 {
        Err(BraveError::HttpError { status })
    } else {
        Ok(())
    }
}

/// The cache key of a search: the lowercase hex SHA-256 of the request's
/// normalized parameters as serialized by the caller.
pub fn search_cache_key(normalized_params: &str) -> (r: String)
    ensures
        r@ == hex_of(sha256_of(encode_utf8(normalized_params@))),
        r@.len() == 64,
{
    let digest = sha256(normalized_params.as_bytes());
    hex_encode(digest.as_slice())
}

/// How long to wait before the next provider request, in milliseconds, when
/// `elapsed_ms` have passed since the last one and requests must be
/// `min_interval_ms` apart.
pub fn rate_limit_wait(elapsed_ms: u64, min_interval_ms: u64) -> (r: u64)
    ensures
        elapsed_ms < min_interval_ms ==> r == min_interval_ms - elapsed_ms,
        elapsed_ms >= min_interval_ms ==> r == 0,
{
    if elapsed_ms < min_interval_ms {
        min_interval_ms - elapsed_ms
    } else {
        0
    }
}

/// Parameters of a search request as the tool receives them.
#[derive(Debug, Clone)]
pub struct WebSearchParams {
    pub query: String,
    pub count: Option<u8>,
    pub offset: Option<u8>,
    pub freshness: Option<String>,
    pub safesearch: Option<String>,
    pub country: Option<String>,
    pub search_lang: Option<String>,
    pub ui_lang: Option<String>,
    pub extra_snippets: Option<bool>,
    pub goggles: Option<String>,
    pub force_refresh: bool,
    pub domain_allowlist: Option<Vec<String>>,
}

/// Builds and validates the provider request of a search: an empty query or
/// an unknown safe-search level is `InvalidInput`, and so is any parameter
/// that the request's validation refuses.
pub fn build_search_request(params: WebSearchParams) -> (r: Result<SearchRequest, Error>)
    ensures
        params.query@.len() == 0 ==> r matches Err(Error::InvalidInput(_)),
        r matches Ok(req) ==> req.q == params.query && req.count == params.count && req.offset
            == params.offset && req.freshness == params.freshness && request_problem(req) is None
            && req.safesearch is Some,
        params.query@.len() > 0 && (match params.safesearch {
            Some(s) => s@ == "off"@ || s@ == "moderate"@ || s@ == "strict"@,
            None => true,
        }) ==> (r is Ok <==> request_problem(
            SearchRequest {
                q: params.query,
                count: params.count,
                offset: params.offset,
                freshness: params.freshness,
                safesearch: Some(SafeSearch::Moderate),
                country: params.country,
                search_lang: params.search_lang,
                ui_lang: params.ui_lang,
                extra_snippets: params.extra_snippets,
                goggles: params.goggles,
                spellcheck: None,
            },
        ) is None),
{
    if params.query.as_str().unicode_len() == 0 {
        return Err(Error::InvalidInput(String::from_str("query cannot be empty")));
    }
    let level = match &params.safesearch {
        Some(s) => parse_safesearch(Some(s.as_str())),
        None => parse_safesearch(None),
    };
    let safesearch = match level {
        Ok(l) => l,
        Err(e) => return Err(e),
    };
    let req = SearchRequest {
        q: params.query,
        count: params.count,
        offset: params.offset,
        freshness: params.freshness,
        safesearch: Some(safesearch),
        country: params.country,
        search_lang: params.search_lang,
        ui_lang: params.ui_lang,
        extra_snippets: params.extra_snippets,
        goggles: params.goggles,
        spellcheck: None,
    };
    match req.validate() {
        Ok(()) => Ok(req),
        Err(e) => Err(Error::InvalidInput(e.message())),
    }
}

} // verus!
