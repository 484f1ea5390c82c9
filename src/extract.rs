//! Extraction results and their normalized Markdown form with a YAML header.
//!
//! The readability engine itself is outside this library; these are the
//! values it produces and the normalization applied to them.
use vstd::prelude::*;
use crate::text::{contains_seq, contains_text, join2};
use crate::error::Error;
use crate::text::{join3, starts_with_seq, starts_with_text_or};
use crate::url::{WebUrl, trim_of, trim_text};

verus! {

/// Tuning of the readability engine.
#[derive(Debug, Clone, Copy, PartialEq, Eq)]
pub struct ExtractConfig {
    /// Minimum character count of content (200 unless set).
    pub char_threshold: Option<usize>,
    /// Number of top candidates considered (5 unless set).
    pub max_top_candidates: Option<usize>,
}

impl Default for ExtractConfig {
    fn default() -> (r: ExtractConfig)
        ensures
            r.char_threshold == Some(200usize),
            r.max_top_candidates == Some(5usize),
    {
        ExtractConfig { char_threshold: Some(200), max_top_candidates: Some(5) }
    }
}

/// A harvested link.
#[derive(Debug, Clone)]
pub struct Link {
    /// The link text.
    pub text: String,
    /// The resolved target.
    pub href: String,
}

/// What the readability engine returns.
#[derive(Debug, Clone)]
pub struct ExtractionResult {
    pub title: Option<String>,
    pub markdown: String,
    pub links: Vec<Link>,
    pub extractor_version: String,
}

/// A readability engine: from HTML and the page URL to a title, Markdown and
/// links. Callers depend on this interface, so engines can be swapped.
pub trait Extractor {
    /// Extracts the readable content of `html`.
    fn extract(&self, html: &str, base_url: &WebUrl, config: &ExtractConfig) -> Result<ExtractionResult, Error>;
}

/// An extracted document before normalization.
#[derive(Debug, Clone)]
pub struct ExtractedDoc {
    pub title: Option<String>,
    pub markdown: String,
    pub extractor_version: String,
}

/// `s` with every `"` preceded by a backslash.
pub open spec fn escape_quotes(s: Seq<char>) -> Seq<char>
    decreases s.len(),
{
    if s.len() == 0 {
        s
    } else {
        escape_quotes(s.drop_last()) + if s.last() == '"' {
            seq!['\\', '"']
        } else {
            seq![s.last()]
        }
    }
}

/// A YAML scalar for `s`: quoted (with inner quotes escaped) when it holds a
/// newline, or a colon and more than one byte; `""` when empty; else as is.
pub open spec fn yaml_scalar(s: Seq<char>) -> Seq<char> {
    if contains_seq(s, seq!['\n']) || (contains_seq(s, seq![':']) && vstd::utf8::encode_utf8(s).len() > 1) {
        seq!['"'] + escape_quotes(s) + seq!['"']
    } else if s.len() == 0 {
        seq!['"', '"']
    } else {
        s
    }
}

/// `s` with every `"` preceded by a backslash.
fn escape_quote_chars(s: &str) -> (r: String)
    ensures
        r@ == escape_quotes(s@),
{
    let plain = "\"";
    let escaped = "\\\"";
    proof {
        reveal_strlit("\"");
        reveal_strlit("\\\"");
    }
    let mut out = String::new();
    let n = s.unicode_len();
    let mut i: usize = 0;
    while i < n
        invariant
            n == s@.len(),
            i <= n,
            plain@ == seq!['"'],
            escaped@ == seq!['\\', '"'],
            out@ == escape_quotes(s@.subrange(0, i as int)),
        decreases n - i,
    {
        let piece = s.substring_char(i, i + 1);
        let ghost t = s@.subrange(0, i + 1);
        assert(t.drop_last() =~= s@.subrange(0, i as int));
        assert(t.last() == s@[i as int]);
        if s.get_char(i) == '"' {
            out.append(escaped);
        } else {
            out.append(piece);
            assert(piece@ =~= seq![s@[i as int]]);
        }
        i = i + 1;
    }
    assert(s@.subrange(0, n as int) =~= s@);
    out
}

/// Makes `s` safe as a YAML scalar value.
pub fn escape_yaml(s: &str) -> (r: String)
    ensures
        r@ == yaml_scalar(s@),
{
    let newline = "\n";
    let colon = ":";
    let quote = "\"";
    let empty_quoted = "\"\"";
    proof {
        reveal_strlit("\n");
        reveal_strlit(":");
        reveal_strlit("\"");
        reveal_strlit("\"\"");
        assert(newline@ =~= seq!['\n']);
        assert(colon@ =~= seq![':']);
        assert(quote@ =~= seq!['"']);
        assert(empty_quoted@ =~= seq!['"', '"']);
    }
    if contains_text(s, newline) || (contains_text(s, colon) && s.as_bytes().len() > 1) {
        let inner = escape_quote_chars(s);
        let r = join2(quote, inner.as_str());
        r.concat(quote)
    } else if s.unicode_len() == 0 {
        String::from_str(empty_quoted)
    } else {
        String::from_str(s)
    }
}

/// The normalized document: a YAML header naming the title (or `Untitled`),
/// the source URL, the fetch time, the extractor and the site configuration
/// (or `none`), then the trimmed Markdown body.
pub open spec fn normalized_of(
    title: Option<Seq<char>>,
    markdown: Seq<char>,
    extractor: Seq<char>,
    source: Seq<char>,
    fetched_at: Seq<char>,
    siteconfig: Option<Seq<char>>,
) -> Seq<char> {
    "---\ntitle: "@ + yaml_scalar(
        match title {
            Some(t) => t,
            None => "Untitled"@,
        },
    ) + "\nsource: "@ + source + "\nfetched_at: "@ + fetched_at + "\nextractor: "@ + extractor
        + "\nsiteconfig: "@ + (match siteconfig {
        Some(s) => s,
        None => "none"@,
    }) + "\n---\n"@ + trim_of(markdown)
}

/// Normalizes an extracted document with a YAML header; `source_url` is the
/// final URL and `fetched_at` its RFC 3339 fetch time in whole seconds.
pub fn normalize_markdown(
    doc: &ExtractedDoc,
    source_url: &str,
    fetched_at: &str,
    siteconfig_id: Option<&str>,
) -> (r: String)
    ensures
        r@ == normalized_of(
            crate::url::opt_view(doc.title),
            doc.markdown@,
            doc.extractor_version@,
            source_url@,
            fetched_at@,
            match siteconfig_id {
                Some(s) => Some(s@),
                None => None,
            },
        ),
{
    let title = match &doc.title {
        Some(t) => t.as_str(),
        None => "Untitled",
    };
    let siteconfig = match siteconfig_id {
        Some(s) => s,
        None => "none",
    };
    let r = String::from_str("---\ntitle: ");
    let r = r.concat(escape_yaml(title).as_str());
    let r = r.concat("\nsource: ");
    let r = r.concat(source_url);
    let r = r.concat("\nfetched_at: ");
    let r = r.concat(fetched_at);
    let r = r.concat("\nextractor: ");
    let r = r.concat(doc.extractor_version.as_str());
    let r = r.concat("\nsiteconfig: ");
    let r = r.concat(siteconfig);
    let r = r.concat("\n---\n");
    r.concat(trim_text(doc.markdown.as_str()))
}

/// The number of `/` in a text.
pub open spec fn slash_count(s: Seq<char>) -> nat
    decreases s.len(),
{
    if s.len() == 0 {
        0
    } else {
        slash_count(s.drop_last()) + if s.last() == '/' {
            1nat
        } else {
            0nat
        }
    }
}

/// The text before the third `/`, or all of it when there are fewer: the
/// `scheme://host` origin of an absolute URL.
pub open spec fn origin_of(s: Seq<char>) -> Seq<char>
    decreases s.len(),
{
    if slash_count(s) < 3 {
        s
    } else if slash_count(s.drop_last()) >= 3 {
        origin_of(s.drop_last())
    } else {
        s.drop_last()
    }
}

/// The text before the last `/`, or all of it when it has none.
pub open spec fn dir_of(s: Seq<char>) -> Seq<char>
    decreases s.len(),
{
    if s.len() == 0 {
        s
    } else if s.last() == '/' {
        s.drop_last()
    } else if slash_count(s.drop_last()) > 0 {
        dir_of(s.drop_last())
    } else {
        s
    }
}

/// A link target resolved against an optional base: absolute and
/// protocol-relative targets stay; a root-relative one is put after the
/// base's origin (when the base has at least two `/`); any other is put after
/// the base's directory.
pub open spec fn resolved_of(href: Seq<char>, base: Option<Seq<char>>) -> Seq<char> {
    if starts_with_seq(href, "http://"@) || starts_with_seq(href, "https://"@) || starts_with_seq(href, "//"@) {
        href
    } else {
        match base {
            None => href,
            Some(b) => if starts_with_seq(href, "/"@) {
                if slash_count(b) >= 2 {
                    origin_of(b) + href
                } else {
                    href
                }
            } else {
                dir_of(b) + "/"@ + href
            },
        }
    }
}

proof fn lemma_slash_count_step(s: Seq<char>, i: int)
    requires
        0 <= i < s.len(),
    ensures
        slash_count(s.subrange(0, i + 1)) == slash_count(s.subrange(0, i)) + if s[i] == '/' {
            1nat
        } else {
            0nat
        },
{
    assert(s.subrange(0, i + 1).drop_last() =~= s.subrange(0, i));
}

/// Once a prefix holds three slashes, longer prefixes have the same origin.
proof fn lemma_origin_stable(s: Seq<char>, i: int, j: int)
    requires
        0 <= i <= j <= s.len(),
        slash_count(s.subrange(0, i)) >= 3,
    ensures
        origin_of(s.subrange(0, j)) == origin_of(s.subrange(0, i)),
        slash_count(s.subrange(0, j)) >= 3,
    decreases j - i,
{
    if j > i {
        lemma_origin_stable(s, i, j - 1);
        lemma_slash_count_step(s, j - 1);
        assert(s.subrange(0, j).drop_last() =~= s.subrange(0, j - 1));
    }
}

/// The origin of `s`: the text before its third `/`.
fn origin_text(s: &str) -> (r: String)
    ensures
        r@ == origin_of(s@),
{
    let n = s.unicode_len();
    let mut count: usize = 0;
    let mut i: usize = 0;
    assert(s@.subrange(0, 0) =~= Seq::<char>::empty());
    while i < n
        invariant
            n == s@.len(),
            i <= n,
            count == slash_count(s@.subrange(0, i as int)),
            count <= 2,
        decreases n - i,
    {
        proof {
            lemma_slash_count_step(s@, i as int);
        }
        if s.get_char(i) == '/' {
            if count == 2 {
                let ghost p = s@.subrange(0, i + 1);
                assert(p.drop_last() =~= s@.subrange(0, i as int));
                proof {
                    lemma_origin_stable(s@, i + 1, n as int);
                    assert(s@.subrange(0, n as int) =~= s@);
                }
                return String::from_str(s.substring_char(0, i));
            }
            count = count + 1;
        }
        i = i + 1;
    }
    assert(s@.subrange(0, n as int) =~= s@);
    String::from_str(s)
}

/// With no `/` after position `i`, the directory of `s` is that of its
/// first `i` characters when those hold a `/`, and `s` itself otherwise.
proof fn lemma_dir_suffix(s: Seq<char>, i: int)
    requires
        0 <= i <= s.len(),
        forall|k: int| i <= k < s.len() ==> s[k] != '/',
    ensures
        slash_count(s.subrange(0, i)) > 0 ==> dir_of(s) == dir_of(s.subrange(0, i)),
        slash_count(s.subrange(0, i)) == 0 ==> dir_of(s) == s && slash_count(s) == 0,
    decreases s.len() - i,
{
    if i < s.len() {
        let d = s.drop_last();
        lemma_dir_suffix(d, i);
        assert(d.subrange(0, i) =~= s.subrange(0, i));
        assert(s.last() != '/');
        assert(d.subrange(0, d.len() as int) =~= d);
        lemma_slash_count_monotone(d, i, d.len() as int);
    } else {
        assert(s.subrange(0, i) =~= s);
    }
}

/// The directory of `s`: the text before its last `/`.
fn dir_text(s: &str) -> (r: String)
    ensures
        r@ == dir_of(s@),
{
    let n = s.unicode_len();
    let mut i: usize = n;
    while i > 0
        invariant
            n == s@.len(),
            i <= n,
            forall|k: int| i <= k < n ==> s@[k] != '/',
        decreases i,
    {
        if s.get_char(i - 1) == '/' {
            proof {
                let p = s@.subrange(0, i as int);
                assert(p.last() == '/');
                assert(p.drop_last() =~= s@.subrange(0, i - 1));
                lemma_slash_count_step(s@, i - 1);
                lemma_dir_suffix(s@, i as int);
            }
            return String::from_str(s.substring_char(0, i - 1));
        }
        i = i - 1;
    }
    proof {
        lemma_dir_suffix(s@, 0);
        assert(s@.subrange(0, 0) =~= Seq::<char>::empty());
    }
    String::from_str(s)
}

/// Whether `s` holds at least two `/`.
fn two_slashes(s: &str) -> (r: bool)
    ensures
        r == (slash_count(s@) >= 2),
{
    let n = s.unicode_len();
    let mut count: usize = 0;
    let mut i: usize = 0;
    assert(s@.subrange(0, 0) =~= Seq::<char>::empty());
    while i < n
        invariant
            n == s@.len(),
            i <= n,
            count == slash_count(s@.subrange(0, i as int)),
            count <= 1,
        decreases n - i,
    {
        proof {
            lemma_slash_count_step(s@, i as int);
        }
        if s.get_char(i) == '/' {
            if count == 1 {
                proof {
                    lemma_slash_count_monotone(s@, i + 1, n as int);
                    assert(s@.subrange(0, n as int) =~= s@);
                }
                return true;
            }
            count = count + 1;
        }
        i = i + 1;
    }
    assert(s@.subrange(0, n as int) =~= s@);
    false
}

/// Slash counts of prefixes never drop.
proof fn lemma_slash_count_monotone(s: Seq<char>, i: int, j: int)
    requires
        0 <= i <= j <= s.len(),
    ensures
        slash_count(s.subrange(0, i)) <= slash_count(s.subrange(0, j)),
    decreases j - i,
{
    if j > i {
        lemma_slash_count_monotone(s, i, j - 1);
        lemma_slash_count_step(s, j - 1);
    }
}

/// Resolves a link target against an optional base URL by text: absolute
/// and protocol-relative targets are kept, a root-relative target goes after
/// the base's origin, any other after the base's directory.
pub fn resolve_url(href: &str, base_url: Option<&str>) -> (r: String)
    ensures
        r@ == resolved_of(href@, match base_url {
            Some(b) => Some(b@),
            None => None,
        }),
{
    if starts_with_text_or(href, "http://", "https://") || crate::text::matches_at(href, "//", 0) {
        return String::from_str(href);
    }
    match base_url {
        None => String::from_str(href),
        Some(base) => if crate::text::matches_at(href, "/", 0) {
            if two_slashes(base) {
                let origin = origin_text(base);
                origin.concat(href)
            } else {
                String::from_str(href)
            }
        } else {
            let dir = dir_text(base);
            join3(dir.as_str(), "/", href)
        },
    }
}

} // verus!
