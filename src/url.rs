//! URL canonicalization: trimming, default scheme, scheme allowlist, host
//! lowercasing and fragment removal.
//!
//! Parsing and re-serialization are done by the `url` crate; the library keeps
//! the parsed components as plain strings next to the parsed value.
use vstd::prelude::*;
use crate::text::{contains_seq, contains_text, join2, same_text};

verus! {

/// `url::Url`, carried opaque inside `WebUrl` so that the setters can act on it.
#[verifier::external_type_specification]
#[verifier::external_body]
pub struct ExUrl(url::Url);

/// The components of a parsed URL, as character sequences.
pub struct UrlView {
    pub href: Seq<char>,
    pub scheme: Seq<char>,
    pub host: Option<Seq<char>>,
    pub path: Seq<char>,
    pub query: Option<Seq<char>>,
    pub fragment: Option<Seq<char>>,
}

/// A parsed absolute URL together with its components.
#[derive(Debug)]
pub struct WebUrl {
    inner: url::Url,
    href: String,
    scheme: String,
    host: Option<String>,
    path: String,
    query: Option<String>,
    fragment: Option<String>,
}

/// The character sequence held by an optional string.
pub open spec fn opt_view(o: Option<String>) -> Option<Seq<char>> {
    match o {
        Some(s) => Some(s@),
        None => None,
    }
}

impl View for WebUrl {
    type V = UrlView;

    closed spec fn view(&self) -> UrlView {
        UrlView {
            href: self.href@,
            scheme: self.scheme@,
            host: opt_view(self.host),
            path: self.path@,
            query: opt_view(self.query),
            fragment: opt_view(self.fragment),
        }
    }
}

/// What `url::Url::parse` makes of a string: `None` where it fails.
pub uninterp spec fn url_parse_of(s: Seq<char>) -> Option<UrlView>;

/// What `url::Url::set_host` makes of a URL and a new host: `None` where it fails.
pub uninterp spec fn url_with_host_of(u: UrlView, host: Seq<char>) -> Option<UrlView>;

/// What `str::trim` returns: the text without leading and trailing whitespace.
pub uninterp spec fn trim_of(s: Seq<char>) -> Seq<char>;

/// What `str::to_lowercase` returns.
pub uninterp spec fn lower_of(s: Seq<char>) -> Seq<char>;

/// Relies on `url::Url::parse`: the parsed URL, or the parser's message.
#[verifier::external_body]
fn parse_url(s: &str) -> (r: Result<WebUrl, String>)
    ensures
        r is Ok <==> url_parse_of(s@) is Some,
        r matches Ok(u) ==> url_parse_of(s@) == Some(u@),
{
    match url::Url::parse(s) {
        Ok(u) => Ok(WebUrl {
            href: u.as_str().to_string(),
            scheme: u.scheme().to_string(),
            host: u.host_str().map(|h| h.to_string()),
            path: u.path().to_string(),
            query: u.query().map(|q| q.to_string()),
            fragment: u.fragment().map(|f| f.to_string()),
            inner: u,
        }),
        Err(e) => Err(e.to_string()),
    }
}

/// Relies on `url::Url::set_host`: replaces the host, keeps the scheme, and
/// leaves the URL as it was when it fails.
#[verifier::external_body]
fn set_url_host(u: &mut WebUrl, host: &str) -> (r: Result<(), String>)
    ensures
        r is Ok <==> url_with_host_of(old(u)@, host@) is Some,
        r is Ok ==> Some(final(u)@) == url_with_host_of(old(u)@, host@),
        r is Ok ==> final(u)@.scheme == old(u)@.scheme,
        r is Err ==> final(u)@ == old(u)@,
{
    match u.inner.set_host(Some(host)) {
        Ok(()) => {
            u.href = u.inner.as_str().to_string();
            u.host = u.inner.host_str().map(|h| h.to_string());
            u.path = u.inner.path().to_string();
            u.query = u.inner.query().map(|q| q.to_string());
            Ok(())
        },
        Err(e) => Err(e.to_string()),
    }
}

/// What `url::Url::join` makes of a base URL and a reference: the
/// serialization of the resolved URL, or `None` where it fails.
pub uninterp spec fn url_join_of(base: UrlView, reference: Seq<char>) -> Option<Seq<char>>;

/// Relies on `url::Url::join`: `reference` resolved against `base`, serialized.
#[verifier::external_body]
pub(crate) fn join_url(base: &WebUrl, reference: &str) -> (r: Option<String>)
    ensures
        r is Some <==> url_join_of(base@, reference@) is Some,
        r matches Some(s) ==> url_join_of(base@, reference@) == Some(s@),
{
    base.inner.join(reference).ok().map(|u| u.to_string())
}

/// A URL of a special scheme with its fragment removed: the serialization
/// loses its trailing `#` and fragment, every other component stays.
pub open spec fn without_fragment(v: UrlView) -> UrlView {
    UrlView {
        href: match v.fragment {
            Some(f) => v.href.subrange(0, v.href.len() - f.len() - 1),
            None => v.href,
        },
        fragment: None,
        ..v
    }
}

/// Relies on `url::Url::set_fragment` with `None`: on an http or https URL it
/// truncates the serialization where the fragment began.
#[verifier::external_body]
fn clear_url_fragment(u: &mut WebUrl)
    requires
        web_scheme(old(u)@.scheme),
    ensures
        final(u)@ == without_fragment(old(u)@),
        old(u)@.fragment matches Some(f) ==> old(u)@.href == final(u)@.href + "#"@ + f,
{
    u.inner.set_fragment(None);
    u.href = u.inner.as_str().to_string();
    u.fragment = None;
}

/// Relies on `str::trim`.
#[verifier::external_body]
pub(crate) fn trim_text(s: &str) -> (r: &str)
    ensures
        r@ == trim_of(s@),
{
    s.trim()
}

/// Relies on `str::to_lowercase`.
#[verifier::external_body]
fn lowercase(s: &str) -> (r: String)
    ensures
        r@ == lower_of(s@),
{
    s.to_lowercase()
}

impl WebUrl {
    /// The whole serialized URL.
    pub fn as_str(&self) -> (r: &str)
        ensures
            r@ == self@.href,
    {
        self.href.as_str()
    }

    /// The serialized URL as a new `String`.
    pub fn to_string(&self) -> (r: String)
        ensures
            r@ == self@.href,
    {
        self.href.clone()
    }

    /// The scheme, without the trailing `:`.
    pub fn scheme(&self) -> (r: &str)
        ensures
            r@ == self@.scheme,
    {
        self.scheme.as_str()
    }

    /// The host as written in the serialization, if there is one.
    pub fn host_str(&self) -> (r: Option<&str>)
        ensures
            r is Some <==> self@.host is Some,
            r matches Some(h) ==> self@.host == Some(h@),
    {
        match &self.host {
            Some(h) => Some(h.as_str()),
            None => None,
        }
    }

    /// The path.
    pub fn path(&self) -> (r: &str)
        ensures
            r@ == self@.path,
    {
        self.path.as_str()
    }

    /// The query, without the leading `?`, if there is one.
    pub fn query(&self) -> (r: Option<&str>)
        ensures
            r is Some <==> self@.query is Some,
            r matches Some(q) ==> self@.query == Some(q@),
    {
        match &self.query {
            Some(q) => Some(q.as_str()),
            None => None,
        }
    }

    /// The fragment, without the leading `#`, if there is one.
    pub fn fragment(&self) -> (r: Option<&str>)
        ensures
            r is Some <==> self@.fragment is Some,
            r matches Some(f) ==> self@.fragment == Some(f@),
    {
        match &self.fragment {
            Some(f) => Some(f.as_str()),
            None => None,
        }
    }

    /// Parses an absolute URL as it stands, with no canonicalization.
    pub fn parse(s: &str) -> (r: Result<WebUrl, UrlError>)
        ensures
            r is Ok <==> url_parse_of(s@) is Some,
            r matches Ok(u) ==> url_parse_of(s@) == Some(u@),
            r is Err ==> r matches Err(UrlError::InvalidUrl(_)),
    {
        match parse_url(s) {
            Ok(u) => Ok(u),
            Err(msg) => Err(UrlError::InvalidUrl(msg)),
        }
    }
}

/// Why a string could not be canonicalized.
#[derive(Debug, Clone)]
pub enum UrlError {
    /// Nothing but whitespace was given.
    Empty,
    /// The scheme is neither `http` nor `https`.
    UnsupportedScheme(String),
    /// The text is not a URL, or its host could not be set.
    InvalidUrl(String),
}

/// The schemes that the fetcher accepts.
pub open spec fn web_scheme(s: Seq<char>) -> bool {
    s == "http"@ || s == "https"@
}

/// The text to parse: the trimmed input, with `https://` put in front when it
/// holds no scheme separator.
pub open spec fn with_default_scheme(t: Seq<char>) -> Seq<char> {
    if contains_seq(t, "://"@) {
        t
    } else {
        "https://"@ + t
    }
}

/// The outcome of canonicalization, as a value.
pub enum Canonical {
    Empty,
    Invalid,
    Unsupported(Seq<char>),
    Url(UrlView),
}

/// What canonicalization yields for an input string.
pub open spec fn canonical_of(input: Seq<char>) -> Canonical {
    let t = trim_of(input);
    if t.len() == 0 {
        Canonical::Empty
    } else {
        match url_parse_of(with_default_scheme(t)) {
            None => Canonical::Invalid,
            Some(v) => if !web_scheme(v.scheme) {
                Canonical::Unsupported(v.scheme)
            } else {
                match v.host {
                    None => Canonical::Url(without_fragment(v)),
                    Some(h) => match url_with_host_of(v, lower_of(h)) {
                        None => Canonical::Invalid,
                        Some(w) => Canonical::Url(without_fragment(w)),
                    },
                }
            },
        }
    }
}

/// The outcome that a result of `canonicalize` stands for.
pub open spec fn outcome(r: Result<WebUrl, UrlError>) -> Canonical {
    match r {
        Ok(u) => Canonical::Url(u@),
        Err(UrlError::Empty) => Canonical::Empty,
        Err(UrlError::InvalidUrl(_)) => Canonical::Invalid,
        Err(UrlError::UnsupportedScheme(s)) => Canonical::Unsupported(s@),
    }
}

/// Canonicalizes a URL string for caching and safety checks: trims it, fails
/// with `Empty` when nothing is left, puts `https://` in front when there is
/// no `://`, parses it, accepts only `http` and `https`, lowercases the host
/// and drops the fragment. The query is left as it was.
pub fn canonicalize(input: &str) -> (r: Result<WebUrl, UrlError>)
    ensures
        outcome(r) == canonical_of(input@),
        r matches Ok(u) ==> web_scheme(u@.scheme) && u@.fragment is None,
{
    let trimmed = trim_text(input);
    if trimmed.unicode_len() == 0 {
        return Err(UrlError::Empty);
    }
    let url_str = if contains_text(trimmed, "://") {
        String::from_str(trimmed)
    } else {
        join2("https://", trimmed)
    };
    let mut parsed = match parse_url(url_str.as_str()) {
        Ok(u) => u,
        Err(msg) => return Err(UrlError::InvalidUrl(msg)),
    };
    let scheme_ok = same_text(parsed.scheme(), "http") || same_text(parsed.scheme(), "https");
    if !scheme_ok {
        return Err(UrlError::UnsupportedScheme(String::from_str(parsed.scheme())));
    }
    let host = match parsed.host_str() {
        Some(h) => Some(lowercase(h)),
        None => None,
    };
    if let Some(h) = host {
        if let Err(msg) = set_url_host(&mut parsed, h.as_str()) {
            return Err(UrlError::InvalidUrl(msg));
        }
    }
    clear_url_fragment(&mut parsed);
    Ok(parsed)
}

} // verus!
