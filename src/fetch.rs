//! The fetch pipeline's decisions: canonicalize, consult robots.txt, and hold
//! a response to the status and size limits.
//!
//! The caller performs the HTTP exchange (with the redirect ceiling and the
//! timeout set on its transport) and hands the status, headers and body here.
use vstd::prelude::*;
use crate::error::Error;
use crate::robots::{RobotsCache, RobotsError, RobotsStep, robots_url_of, expired_at, verdict};
use crate::text::{decimal_of, decimal_text, join2, join3, same_text};
use crate::url::{WebUrl, UrlError, canonicalize, Canonical, canonical_of, outcome};

verus! {

/// What `Duration::from_millis` returns.
pub uninterp spec fn duration_of_ms(ms: u64) -> core::time::Duration;

/// Relies on `std::time::Duration::from_millis`.
#[verifier::external_body]
pub(crate) fn duration_from_ms(ms: u64) -> (r: core::time::Duration)
    ensures
        r == duration_of_ms(ms),
{
    core::time::Duration::from_millis(ms)
}

/// The default response size ceiling: 5 MiB.
pub const DEFAULT_MAX_BYTES: usize = 5_242_880;

/// The default request timeout in milliseconds.
pub const DEFAULT_TIMEOUT_MS: u64 = 20_000;

/// The default redirect ceiling.
pub const DEFAULT_MAX_REDIRECTS: usize = 5;

/// Settings of the fetch pipeline.
#[derive(Debug)]
pub struct FetchConfig {
    /// User agent sent on every request, robots.txt included.
    pub user_agent: String,
    /// Largest accepted response body, in bytes.
    pub max_bytes: usize,
    /// Wall-clock limit of one request.
    pub timeout: core::time::Duration,
    /// Redirect ceiling of the transport.
    pub max_redirects: usize,
    /// Whether robots.txt is consulted.
    pub respect_robots: bool,
}

impl FetchConfig {
    /// The defaults: user agent `mcp-web/0.1`, 5 MiB, 20 s, 5 redirects,
    /// robots.txt respected.
    pub fn default() -> (r: FetchConfig)
        ensures
            r.user_agent@ == "mcp-web/0.1"@,
            r.max_bytes == DEFAULT_MAX_BYTES,
            r.timeout == duration_of_ms(DEFAULT_TIMEOUT_MS),
            r.max_redirects == DEFAULT_MAX_REDIRECTS,
            r.respect_robots,
    {
        FetchConfig {
            user_agent: String::from_str("mcp-web/0.1"),
            max_bytes: DEFAULT_MAX_BYTES,
            timeout: duration_from_ms(DEFAULT_TIMEOUT_MS),
            max_redirects: DEFAULT_MAX_REDIRECTS,
            respect_robots: true,
        }
    }
}

/// A validated response.
#[derive(Debug)]
pub struct FetchResponse {
    /// The canonical URL that was requested.
    pub url: WebUrl,
    /// The URL after redirects.
    pub final_url: WebUrl,
    /// The HTTP status, always a success.
    pub status: u16,
    /// The `content-type` header, if present.
    pub content_type: Option<String>,
    /// The body.
    pub bytes: Vec<u8>,
    /// The response headers as (lowercase name, value) pairs.
    pub headers: Vec<(String, String)>,
    /// Time spent fetching, in milliseconds.
    pub fetch_ms: u64,
}

/// The `InvalidUrl` message of a canonicalization failure.
pub fn url_error_message(e: &UrlError) -> (r: String)
    ensures
        r@ == match *e {
            UrlError::Empty => "empty URL"@,
            UrlError::UnsupportedScheme(s) => "unsupported scheme: "@ + s@,
            UrlError::InvalidUrl(m) => "invalid URL: "@ + m@,
        },
{
    match e {
        UrlError::Empty => String::from_str("empty URL"),
        UrlError::UnsupportedScheme(s) => join2("unsupported scheme: ", s.as_str()),
        UrlError::InvalidUrl(m) => join2("invalid URL: ", m.as_str()),
    }
}

/// The `RobotsDisallowed` message of a robots failure.
pub fn robots_error_message(e: &RobotsError) -> (r: String)
    ensures
        r@ == match *e {
            RobotsError::Disallowed { path, robots_url } => "robots.txt disallowed: "@ + path@
                + " (robots_url: "@ + robots_url@ + ")"@,
            RobotsError::FetchError(m) => "failed to fetch robots.txt: "@ + m@,
            RobotsError::TooLarge => "robots.txt too large"@,
        },
{
    match e {
        RobotsError::Disallowed { path, robots_url } => {
            let s = join3("robots.txt disallowed: ", path.as_str(), " (robots_url: ");
            let s = s.concat(robots_url.as_str());
            s.concat(")")
        },
        RobotsError::FetchError(m) => join2("failed to fetch robots.txt: ", m.as_str()),
        RobotsError::TooLarge => String::from_str("robots.txt too large"),
    }
}

/// What the caller does after a URL was accepted for fetching.
#[derive(Debug)]
pub enum FetchStep {
    /// Send the GET request to this URL.
    Request(WebUrl),
    /// Fetch robots.txt from the given location first, then call
    /// `FetchPipeline::robots_fetched`.
    Robots(WebUrl, String),
}

/// The fetch pipeline's state: its settings and the robots.txt cache.
pub struct FetchPipeline {
    pub config: FetchConfig,
    pub robots: RobotsCache,
}

/// Whether a status is a success (2xx).
pub open spec fn success_status(status: u16) -> bool {
    200 <= status <= 299
}

/// The value of the first header named `name`, if any.
pub open spec fn header_value(headers: Seq<(String, String)>, name: Seq<char>) -> Option<Seq<char>>
    decreases headers.len(),
{
    if headers.len() == 0 {
        None
    } else if headers[0].0@ == name {
        Some(headers[0].1@)
    } else {
        header_value(headers.drop_first(), name)
    }
}

/// Looks up the first header named `name` (names are given in lowercase).
pub fn find_header(headers: &Vec<(String, String)>, name: &str) -> (r: Option<String>)
    ensures
        match (r, header_value(headers@, name@)) {
            (Some(v), Some(w)) => v@ == w,
            (None, None) => true,
            _ => false,
        },
{
    let mut i: usize = 0;
    assert(headers@.subrange(0, headers@.len() as int) =~= headers@);
    while i < headers.len()
        invariant
            i <= headers@.len(),
            header_value(headers@, name@) == header_value(headers@.subrange(i as int, headers@.len() as int), name@),
        decreases headers@.len() - i,
    {
        let ghost rest = headers@.subrange(i as int, headers@.len() as int);
        assert(rest.drop_first() =~= headers@.subrange(i + 1, headers@.len() as int));
        if same_text(headers[i].0.as_str(), name) {
            return Some(headers[i].1.clone());
        }
        i = i + 1;
    }
    None
}

/// Refuses a non-success status with `HttpError` before any body is read,
/// and a declared length above the ceiling with `FetchTooLarge`.
pub fn check_head(status: u16, declared: Option<u64>, max_bytes: usize) -> (r: Result<(), Error>)
    ensures
        !success_status(status) ==> (r matches Err(Error::HttpError(m)) && m@ == "status "@
            + decimal_of(status as nat)),
        success_status(status) ==> match declared {
            Some(len) if len > max_bytes => r matches Err(Error::FetchTooLarge(_)),
            _ => r is Ok,
        },
{
    if !(200 <= status && status <= 299) {
        let n = decimal_text(status as u64);
        return Err(Error::HttpError(join2("status ", n.as_str())));
    }
    match declared {
        Some(len) => if len > max_bytes as u64 {
            let a = decimal_text(len);
            let b = decimal_text(max_bytes as u64);
            Err(Error::FetchTooLarge(join3(a.as_str(), " bytes exceeds ", b.as_str())))
        } else {
            Ok(())
        },
        None => Ok(()),
    }
}

/// Maps a transport failure: a timeout becomes `FetchTimeout`, anything else
/// a network `HttpError`.
pub fn transport_error(timed_out: bool, message: &str) -> (r: Error)
    ensures
        timed_out ==> (r matches Error::FetchTimeout(m) && m@ == message@),
        !timed_out ==> (r matches Error::HttpError(m) && m@ == "network error: "@ + message@),
{
    if timed_out {
        Error::FetchTimeout(String::from_str(message))
    } else {
        Error::HttpError(join2("network error: ", message))
    }
}

impl FetchPipeline {
    /// A pipeline with the given settings and an empty robots.txt cache.
    pub fn new(config: FetchConfig) -> (r: FetchPipeline)
        ensures
            r.robots.wf(),
            r.robots.entries().len() == 0,
            r.robots.agent() == config.user_agent@,
            r.config == config,
    {
        let agent = config.user_agent.clone();
        FetchPipeline { config, robots: RobotsCache::new(agent) }
    }

    /// The first step of a fetch at time `now`: canonicalize (a failure is
    /// `InvalidUrl`), then, when robots.txt is respected, answer from a fresh
    /// cached entry (a refusal is `RobotsDisallowed`) or ask for robots.txt.
    pub fn begin(&self, url_str: &str, now: u64) -> (r: Result<FetchStep, Error>)
        requires
            self.robots.wf(),
        ensures
            (canonical_of(url_str@) matches Canonical::Url(_)) <==> !(r matches Err(
                Error::InvalidUrl(_),
            )),
            canonical_of(url_str@) matches Canonical::Url(v) ==> ({
                let ru = robots_url_of(v.scheme, v.host);
                if !self.config.respect_robots {
                    r matches Ok(FetchStep::Request(u)) && u@ == v
                } else {
                    match self.robots.cached(ru) {
                        Some((rules, at)) if !expired_at(at, now) => if verdict(
                            rules,
                            self.robots.agent(),
                            v.path,
                            ru,
                            Ok(true),
                        ) {
                            r matches Ok(FetchStep::Request(u)) && u@ == v
                        } else {
                            r matches Err(Error::RobotsDisallowed(_))
                        },
                        _ => r matches Ok(FetchStep::Robots(u, x)) && u@ == v && x@ == ru,
                    }
                }
            }),
    {
        let url = match canonicalize(url_str) {
            Ok(u) => u,
            Err(e) => return Err(Error::InvalidUrl(url_error_message(&e))),
        };
        if !self.config.respect_robots {
            return Ok(FetchStep::Request(url));
        }
        match self.robots.check(&url, now) {
            RobotsStep::Decided(Ok(_)) => Ok(FetchStep::Request(url)),
            RobotsStep::Decided(Err(e)) => Err(Error::RobotsDisallowed(robots_error_message(&e))),
            RobotsStep::Fetch(robots_url) => Ok(FetchStep::Robots(url, robots_url)),
        }
    }

    /// The robots step once robots.txt was fetched (or failed): the rule text
    /// is cached and evaluated; a refusal or failure is `RobotsDisallowed`.
    pub fn robots_fetched(
        &mut self,
        url: WebUrl,
        robots_url: String,
        fetched: Result<String, RobotsError>,
        now: u64,
    ) -> (r: Result<WebUrl, Error>)
        requires
            old(self).robots.wf(),
        ensures
            final(self).robots.wf(),
            final(self).config == old(self).config,
            final(self).robots.agent() == old(self).robots.agent(),
            match fetched {
                Ok(rules) => final(self).robots.cached(robots_url@) == Some((rules@, now)) && (
                r is Ok <==> verdict(rules@, old(self).robots.agent(), url@.path, robots_url@, Ok(true)))
                    && (r matches Ok(u) ==> u@ == url@),
                Err(_) => r matches Err(Error::RobotsDisallowed(_)) && final(self).robots.entries()
                    == old(self).robots.entries(),
            },
    {
        match self.robots.complete(&url, robots_url, fetched, now) {
            Ok(_) => Ok(url),
            Err(e) => Err(Error::RobotsDisallowed(robots_error_message(&e))),
        }
    }

    /// The last step: holds the buffered body to the size ceiling whatever the
    /// headers declared, and assembles the response.
    pub fn finish(
        &self,
        url: WebUrl,
        final_url: WebUrl,
        status: u16,
        headers: Vec<(String, String)>,
        bytes: Vec<u8>,
        fetch_ms: u64,
    ) -> (r: Result<FetchResponse, Error>)
        ensures
            !success_status(status) ==> r matches Err(Error::HttpError(_)),
            success_status(status) ==> (r is Ok <==> bytes@.len() <= self.config.max_bytes),
            success_status(status) && bytes@.len() > self.config.max_bytes ==> r matches Err(
                Error::FetchTooLarge(_),
            ),
            r matches Ok(resp) ==> resp.url@ == url@ && resp.final_url@ == final_url@
                && resp.status == status && resp.bytes@ == bytes@ && resp.headers@ == headers@
                && resp.fetch_ms == fetch_ms && match (resp.content_type, header_value(
                headers@,
                "content-type"@,
            )) {
                (Some(v), Some(w)) => v@ == w,
                (None, None) => true,
                _ => false,
            },
    {
        if let Err(e) = check_head(status, None, self.config.max_bytes) {
            return Err(e);
        }
        if bytes.len() > self.config.max_bytes {
            let a = decimal_text(bytes.len() as u64);
            let b = decimal_text(self.config.max_bytes as u64);
            return Err(Error::FetchTooLarge(join3(a.as_str(), " bytes exceeds ", b.as_str())));
        }
        let content_type = find_header(&headers, "content-type");
        Ok(FetchResponse { url, final_url, status, content_type, bytes, headers, fetch_ms })
    }
}

} // verus!
