//! Link harvesting: the anchors of an HTML document, resolved against the
//! page URL, first occurrence of each target kept.
use vstd::prelude::*;
use crate::extract::Link;
use crate::text::same_text;
use crate::url::{UrlView, WebUrl, join_url, trim_of, trim_text, url_join_of};

verus! {

/// An anchor of a document: its `href` and its text nodes in order.
#[derive(Debug, Clone)]
pub struct Anchor {
    pub href: String,
    pub texts: Vec<String>,
}

/// An anchor as character sequences.
pub open spec fn anchor_view(a: Anchor) -> (Seq<char>, Seq<Seq<char>>) {
    (a.href@, a.texts@.map_values(|t: String| t@))
}

/// What `scraper` finds for the selector `a[href]` in a document parsed with
/// `Html::parse_document`: each anchor's `href` and text nodes, in document
/// order.
pub uninterp spec fn anchors_of(html: Seq<char>) -> Seq<(Seq<char>, Seq<Seq<char>>)>;

/// Relies on `scraper::Html::parse_document` and `Html::select` with the
/// selector `a[href]`, reading each match's `href` and text nodes.
#[verifier::external_body]
fn html_anchors(html: &str) -> (r: Vec<Anchor>)
    ensures
        r@.map_values(|a: Anchor| anchor_view(a)) == anchors_of(html@),
{
    let document = scraper::Html::parse_document(html);
    let selector = scraper::Selector::parse("a[href]").expect("constant selector");
    document
        .select(&selector)
        .map(|e| Anchor {
            href: e.attr("href").unwrap_or_default().to_string(),
            texts: e.text().map(|t| t.to_string()).collect(),
        })
        .collect()
}

/// Text nodes joined by single spaces.
pub open spec fn joined(pieces: Seq<Seq<char>>) -> Seq<char>
    decreases pieces.len(),
{
    if pieces.len() == 0 {
        Seq::empty()
    } else if pieces.len() == 1 {
        pieces[0]
    } else {
        joined(pieces.drop_last()) + seq![' '] + pieces.last()
    }
}

/// A link's text: its joined, trimmed text nodes, or `[link]` when empty.
pub open spec fn link_text(pieces: Seq<Seq<char>>) -> Seq<char> {
    let t = trim_of(joined(pieces));
    if t.len() == 0 {
        "[link]"@
    } else {
        t
    }
}

/// Whether some harvested link already has target `href`.
pub open spec fn has_href(links: Seq<(Seq<char>, Seq<char>)>, href: Seq<char>) -> bool {
    exists|i: int| 0 <= i < links.len() && (#[trigger] links[i]).1 == href
}

/// The (text, target) pairs harvested from anchors: each anchor whose
/// reference resolves against `base`, unless an earlier one had the same
/// target.
pub open spec fn harvest(anchors: Seq<(Seq<char>, Seq<Seq<char>>)>, base: UrlView) -> Seq<(Seq<char>, Seq<char>)>
    decreases anchors.len(),
{
    if anchors.len() == 0 {
        Seq::empty()
    } else {
        let prev = harvest(anchors.drop_last(), base);
        let a = anchors.last();
        match url_join_of(base, a.0) {
            None => prev,
            Some(h) => if has_href(prev, h) {
                prev
            } else {
                prev.push((link_text(a.1), h))
            },
        }
    }
}

/// The text nodes of an anchor joined by single spaces.
fn join_texts(texts: &Vec<String>) -> (r: String)
    ensures
        r@ == joined(texts@.map_values(|t: String| t@)),
{
    let ghost pv = texts@.map_values(|t: String| t@);
    let mut out = String::new();
    let mut i: usize = 0;
    while i < texts.len()
        invariant
            pv == texts@.map_values(|t: String| t@),
            i <= texts@.len(),
            out@ == joined(pv.subrange(0, i as int)),
        decreases texts@.len() - i,
    {
        let ghost s1 = pv.subrange(0, i + 1);
        assert(s1.drop_last() =~= pv.subrange(0, i as int));
        if i == 0 {
            out.append(texts[i].as_str());
            assert(s1.len() == 1);
            assert(out@ =~= s1[0]);
        } else {
            out.append(" ");
            out.append(texts[i].as_str());
            proof {
                reveal_strlit(" ");
            }
            assert(out@ =~= joined(s1));
        }
        i = i + 1;
    }
    assert(pv.subrange(0, texts@.len() as int) =~= pv);
    out
}

/// The (text, target) pairs of harvested links.
pub open spec fn links_view(links: Seq<Link>) -> Seq<(Seq<char>, Seq<char>)> {
    links.map_values(|l: Link| (l.text@, l.href@))
}

/// Whether a harvested link already has target `href`.
fn seen(links: &Vec<Link>, href: &str) -> (r: bool)
    ensures
        r == has_href(links_view(links@), href@),
{
    let mut i: usize = 0;
    while i < links.len()
        invariant
            i <= links@.len(),
            forall|k: int| 0 <= k < i ==> (#[trigger] links@[k]).href@ != href@,
        decreases links@.len() - i,
    {
        if same_text(links[i].href.as_str(), href) {
            assert(links_view(links@)[i as int].1 == href@);
            return true;
        }
        i = i + 1;
    }
    assert forall|k: int| 0 <= k < links_view(links@).len() implies (#[trigger] links_view(links@)[k]).1
        != href@ by {
        assert(links_view(links@)[k].1 == links@[k].href@);
    }
    false
}

/// Harvests the links of an HTML document: every `<a href>` in document
/// order, its reference resolved against `base_url` (anchors whose reference
/// does not resolve are skipped), the first anchor of each target kept, and
/// its text trimmed, or `[link]` when it has none.
pub fn extract_links(html: &str, base_url: &WebUrl) -> (r: Vec<Link>)
    ensures
        links_view(r@) == harvest(anchors_of(html@), base_url@),
{
    let anchors = html_anchors(html);
    let ghost av = anchors@.map_values(|a: Anchor| anchor_view(a));
    let mut links: Vec<Link> = Vec::new();
    let mut i: usize = 0;
    while i < anchors.len()
        invariant
            av == anchors@.map_values(|a: Anchor| anchor_view(a)),
            av == anchors_of(html@),
            i <= anchors@.len(),
            links_view(links@) == harvest(av.subrange(0, i as int), base_url@),
        decreases anchors@.len() - i,
    {
        let ghost s1 = av.subrange(0, i + 1);
        assert(s1.drop_last() =~= av.subrange(0, i as int));
        assert(s1.last() == anchor_view(anchors@[i as int]));
        let a = &anchors[i];
        match join_url(base_url, a.href.as_str()) {
            Some(href) => {
                if !seen(&links, href.as_str()) {
                    let joined_text = join_texts(&a.texts);
                    let trimmed = trim_text(joined_text.as_str());
                    let text = if trimmed.unicode_len() == 0 {
                        String::from_str("[link]")
                    } else {
                        String::from_str(trimmed)
                    };
                    let ghost before = links@;
                    links.push(Link { text, href });
                    assert(links_view(links@) =~= links_view(before).push(
                        (link_text(anchor_view(anchors@[i as int]).1), url_join_of(base_url@, anchors@[i as int].href@)->Some_0),
                    ));
                }
            },
            None => {},
        }
        i = i + 1;
    }
    assert(av.subrange(0, anchors@.len() as int) =~= av);
    links
}

} // verus!
