//! The error kinds that every layer maps its failures into.
use vstd::prelude::*;
use crate::text::join2;

verus! {

/// One externally visible failure kind, with its message.
#[derive(Debug, Clone, PartialEq, Eq)]
pub enum Error {
    /// Invalid input parameters.
    InvalidInput(String),
    /// Content extraction failed.
    ExtractFailed(String),
    /// No cache entry for the given hash.
    CacheMiss(String),
    /// A storage operation failed.
    Database(String),
    /// A schema migration failed to apply.
    MigrationFailed(String),
    /// A hash that is not a well-formed key.
    InvalidHash,
    /// The URL could not be canonicalized.
    InvalidUrl(String),
    /// The target resolves to a private or internal address.
    SsrfBlocked(String),
    /// robots.txt refuses the request.
    RobotsDisallowed(String),
    /// The request ran out of time.
    FetchTimeout(String),
    /// The response is larger than allowed.
    FetchTooLarge(String),
    /// A network failure or a non-success status.
    HttpError(String),
    /// The search provider refused the credentials.
    BraveAuthError(String),
    /// The search provider is rate limiting.
    BraveRateLimited(String),
    /// Rendered mode is switched off.
    RenderDisabled,
    /// Rendering failed.
    RenderFailed(String),
}

/// The numeric code that the tool protocol reports for an error.
pub open spec fn error_code(e: Error) -> int {
    match e {
        Error::InvalidInput(_) => -32602,
        Error::ExtractFailed(_) => -32000,
        Error::CacheMiss(_) => -32001,
        Error::Database(_) => -32002,
        Error::MigrationFailed(_) => -32002,
        Error::InvalidHash => -32002,
        Error::InvalidUrl(_) => -32003,
        Error::SsrfBlocked(_) => -32004,
        Error::RobotsDisallowed(_) => -32005,
        Error::FetchTimeout(_) => -32006,
        Error::FetchTooLarge(_) => -32007,
        Error::HttpError(_) => -32008,
        Error::BraveAuthError(_) => -32009,
        Error::BraveRateLimited(_) => -32010,
        Error::RenderDisabled => -32011,
        Error::RenderFailed(_) => -32012,
    }
}

/// The label that starts an error's text.
pub open spec fn error_label(e: Error) -> Seq<char> {
    match e {
        Error::InvalidInput(_) => "INVALID_INPUT: "@,
        Error::ExtractFailed(_) => "EXTRACT_FAILED: "@,
        Error::CacheMiss(_) => "CACHE_MISS: "@,
        Error::Database(_) => "CACHE_ERROR: "@,
        Error::MigrationFailed(_) => "CACHE_ERROR: migration failed: "@,
        Error::InvalidHash => "CACHE_ERROR: invalid hash format"@,
        Error::InvalidUrl(_) => "INVALID_URL: "@,
        Error::SsrfBlocked(_) => "SSRF_BLOCKED: "@,
        Error::RobotsDisallowed(_) => "ROBOTS_DISALLOWED: "@,
        Error::FetchTimeout(_) => "FETCH_TIMEOUT: "@,
        Error::FetchTooLarge(_) => "FETCH_TOO_LARGE: "@,
        Error::HttpError(_) => "HTTP_ERROR: "@,
        Error::BraveAuthError(_) => "BRAVE_AUTH_ERROR: "@,
        Error::BraveRateLimited(_) => "BRAVE_RATE_LIMITED: "@,
        Error::RenderDisabled => "RENDER_DISABLED"@,
        Error::RenderFailed(_) => "RENDER_FAILED: "@,
    }
}

/// The message an error carries, empty for the kinds without one.
pub open spec fn error_detail(e: Error) -> Seq<char> {
    match e {
        Error::InvalidInput(m) => m@,
        Error::ExtractFailed(m) => m@,
        Error::CacheMiss(m) => m@,
        Error::Database(m) => m@,
        Error::MigrationFailed(m) => m@,
        Error::InvalidHash => Seq::empty(),
        Error::InvalidUrl(m) => m@,
        Error::SsrfBlocked(m) => m@,
        Error::RobotsDisallowed(m) => m@,
        Error::FetchTimeout(m) => m@,
        Error::FetchTooLarge(m) => m@,
        Error::HttpError(m) => m@,
        Error::BraveAuthError(m) => m@,
        Error::BraveRateLimited(m) => m@,
        Error::RenderDisabled => Seq::empty(),
        Error::RenderFailed(m) => m@,
    }
}

impl Error {
    /// The protocol error code of this kind.
    pub fn code(&self) -> (r: i32)
        ensures
            r as int == error_code(*self),
    {
        match self {
            Error::InvalidInput(_) => -32602,
            Error::ExtractFailed(_) => -32000,
            Error::CacheMiss(_) => -32001,
            Error::Database(_) => -32002,
            Error::MigrationFailed(_) => -32002,
            Error::InvalidHash => -32002,
            Error::InvalidUrl(_) => -32003,
            Error::SsrfBlocked(_) => -32004,
            Error::RobotsDisallowed(_) => -32005,
            Error::FetchTimeout(_) => -32006,
            Error::FetchTooLarge(_) => -32007,
            Error::HttpError(_) => -32008,
            Error::BraveAuthError(_) => -32009,
            Error::BraveRateLimited(_) => -32010,
            Error::RenderDisabled => -32011,
            Error::RenderFailed(_) => -32012,
        }
    }

    /// The text reported to callers: the kind's label, then its message.
    pub fn to_string(&self) -> (r: String)
        ensures
            r@ == error_label(*self) + error_detail(*self),
    {
        match self {
            Error::InvalidInput(m) => join2("INVALID_INPUT: ", m.as_str()),
            Error::ExtractFailed(m) => join2("EXTRACT_FAILED: ", m.as_str()),
            Error::CacheMiss(m) => join2("CACHE_MISS: ", m.as_str()),
            Error::Database(m) => join2("CACHE_ERROR: ", m.as_str()),
            Error::MigrationFailed(m) => join2("CACHE_ERROR: migration failed: ", m.as_str()),
            Error::InvalidHash => {
                let r = String::from_str("CACHE_ERROR: invalid hash format");
                assert(r@ + Seq::<char>::empty() =~= r@);
                r
            },
            Error::InvalidUrl(m) => join2("INVALID_URL: ", m.as_str()),
            Error::SsrfBlocked(m) => join2("SSRF_BLOCKED: ", m.as_str()),
            Error::RobotsDisallowed(m) => join2("ROBOTS_DISALLOWED: ", m.as_str()),
            Error::FetchTimeout(m) => join2("FETCH_TIMEOUT: ", m.as_str()),
            Error::FetchTooLarge(m) => join2("FETCH_TOO_LARGE: ", m.as_str()),
            Error::HttpError(m) => join2("HTTP_ERROR: ", m.as_str()),
            Error::BraveAuthError(m) => join2("BRAVE_AUTH_ERROR: ", m.as_str()),
            Error::BraveRateLimited(m) => join2("BRAVE_RATE_LIMITED: ", m.as_str()),
            Error::RenderDisabled => {
                let r = String::from_str("RENDER_DISABLED");
                assert(r@ + Seq::<char>::empty() =~= r@);
                r
            },
            Error::RenderFailed(m) => join2("RENDER_FAILED: ", m.as_str()),
        }
    }
}

/// Errors of the tool layer that works on caller-supplied HTML.
#[derive(Debug, Clone, PartialEq, Eq)]
pub enum WebError {
    /// Invalid input parameters.
    InvalidInput(String),
    /// Content extraction failed.
    ExtractFailed(String),
}

impl WebError {
    /// The protocol error code of this kind.
    pub fn code(&self) -> (r: i32)
        ensures
            r as int == (match *self {
                WebError::InvalidInput(_) => -32602int,
                WebError::ExtractFailed(_) => -32000int,
            }),
    {
        match self {
            WebError::InvalidInput(_) => -32602,
            WebError::ExtractFailed(_) => -32000,
        }
    }
}

} // verus!
