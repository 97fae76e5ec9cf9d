//! Discovering asset URLs in an HTML document: every attribute value found
//! for a fixed set of (element, attribute) pairs, resolved against the page's
//! own URL, deduplicated by the exact resolved string.

use vstd::prelude::*;
use crate::strutil::{views_of, push_if_absent};
use crate::urls::{spec_resolve, resolve, scheme_ok};

verus! {

/// The attribute values that an HTML parse of `html` yields for elements of
/// tag `tag` carrying attribute `attr`, in document order.
pub uninterp spec fn attr_values_of(html: Seq<char>, tag: Seq<char>, attr: Seq<char>) -> Seq<
    Seq<char>,
>;

/// Relies on `scraper::Html::parse_document` (an HTML5 parser that never
/// fails, however malformed the markup), `scraper::Selector::parse` on a
/// bare tag name, and `ElementRef::attr`: the attribute values found for one
/// (tag, attribute) pair are a function of the three strings alone.
#[verifier::external_body]
fn collect_attr_values(html: &str, tag: &str, attr: &str) -> (r: Vec<String>)
    ensures
        views_of(r@) == attr_values_of(html@, tag@, attr@),
{
    let document = scraper::Html::parse_document(html);
    let mut out: Vec<String> = Vec::new();
    if let Ok(selector) = scraper::Selector::parse(tag) {
        for element in document.select(&selector) {
            if let Some(value) = element.value().attr(attr) {
                out.push(value.to_owned());
            }
        }
    }
    out
}

/// The URLs resolved from the first `n` of the attribute values `vals`.
pub open spec fn resolved_prefix(base: Seq<char>, vals: Seq<Seq<char>>, n: int) -> Set<Seq<char>>
    decreases n,
{
    if n <= 0 {
        Set::empty()
    } else {
        let prev = resolved_prefix(base, vals, n - 1);
        match spec_resolve(base, vals[n - 1]) {
            Some(u) => prev.insert(u),
            None => prev,
        }
    }
}

/// The URLs resolved from all of the attribute values `vals`.
pub open spec fn resolved_values(base: Seq<char>, vals: Seq<Seq<char>>) -> Set<Seq<char>> {
    resolved_prefix(base, vals, vals.len() as int)
}

/// The tag of the `p`-th scanned (element, attribute) pair. The pairs are
/// fixed and exhaustive: (a, href), (img, src), (link, href), (script, src),
/// (video, src), (audio, src), (source, src).
pub open spec fn pair_tag(p: int) -> Seq<char> {
    if p == 0 {
        "a"@
    } else if p == 1 {
        "img"@
    } else if p == 2 {
        "link"@
    } else if p == 3 {
        "script"@
    } else if p == 4 {
        "video"@
    } else if p == 5 {
        "audio"@
    } else {
        "source"@
    }
}

/// The attribute of the `p`-th scanned (element, attribute) pair.
pub open spec fn pair_attr(p: int) -> Seq<char> {
    if p == 0 || p == 2 {
        "href"@
    } else {
        "src"@
    }
}

/// The asset URLs contributed by the first `p` scanned pairs.
pub open spec fn extract_upto(html: Seq<char>, base: Seq<char>, p: int) -> Set<Seq<char>>
    decreases p,
{
    if p <= 0 {
        Set::empty()
    } else {
        extract_upto(html, base, p - 1).union(
            resolved_values(base, attr_values_of(html, pair_tag(p - 1), pair_attr(p - 1))),
        )
    }
}

/// The set of asset URLs extracted from a document: the union, over the
/// seven scanned (element, attribute) pairs, of the resolved values.
pub open spec fn spec_extract(html: Seq<char>, base: Seq<char>) -> Set<Seq<char>> {
    extract_upto(html, base, 7)
}

/// Resolves every attribute value of one (tag, attribute) pair against
/// `base` and adds the accepted URLs to `out`, keeping its members distinct.
fn add_pair_values(out: &mut Vec<String>, html: &str, base: &str, tag: &str, attr: &str)
    requires
        views_of(old(out)@).no_duplicates(),
    ensures
        views_of(final(out)@).no_duplicates(),
        views_of(final(out)@).to_set() == views_of(old(out)@).to_set().union(
            resolved_values(base@, attr_values_of(html@, tag@, attr@)),
        ),
{
    let vals = collect_attr_values(html, tag, attr);
    let ghost vseq = attr_values_of(html@, tag@, attr@);
    proof {
        assert(views_of(out@).to_set() =~= views_of(out@).to_set().union(
            resolved_prefix(base@, vseq, 0),
        ));
    }
    let mut i: usize = 0;
    while i < vals.len()
        invariant
            i <= vals@.len(),
            views_of(vals@) == vseq,
            views_of(out@).no_duplicates(),
            views_of(out@).to_set() == views_of(old(out)@).to_set().union(
                resolved_prefix(base@, vseq, i as int),
            ),
        decreases vals@.len() - i,
    {
        let ghost pre = views_of(out@).to_set();
        proof {
            assert(vseq[i as int] == vals@[i as int]@);
        }
        match resolve(base, vals[i].as_str()) {
            Some(u) => {
                proof {
                    assert(spec_resolve(base@, vseq[i as int]) == Some(u@));
                }
                push_if_absent(out, u);
                proof {
                    assert(views_of(out@).to_set() =~= views_of(old(out)@).to_set().union(
                        resolved_prefix(base@, vseq, i as int + 1),
                    ));
                }
            },
            None => {
                proof {
                    assert(resolved_prefix(base@, vseq, i as int + 1) == resolved_prefix(
                        base@,
                        vseq,
                        i as int,
                    ));
                }
            },
        }
        i += 1;
    }
}

/// Parses `html_body` (tolerant of malformed markup) and returns the
/// deduplicated asset URLs referenced by the scanned (element, attribute)
/// pairs, each resolved against `base_url` and kept only with an `http` or
/// `https` scheme. The order of the members carries no meaning.
pub fn extract_assets(html_body: &str, base_url: &str) -> (r: Vec<String>)
    ensures
        views_of(r@).to_set() == spec_extract(html_body@, base_url@),
        views_of(r@).no_duplicates(),
{
    let ghost h = html_body@;
    let ghost b = base_url@;
    let mut out: Vec<String> = Vec::new();
    proof {
        assert(views_of(out@).to_set() =~= extract_upto(h, b, 0));
    }
    add_pair_values(&mut out, html_body, base_url, "a", "href");
    proof {
        assert(views_of(out@).to_set() =~= extract_upto(h, b, 1));
    }
    add_pair_values(&mut out, html_body, base_url, "img", "src");
    proof {
        assert(views_of(out@).to_set() =~= extract_upto(h, b, 2));
    }
    add_pair_values(&mut out, html_body, base_url, "link", "href");
    proof {
        assert(views_of(out@).to_set() =~= extract_upto(h, b, 3));
    }
    add_pair_values(&mut out, html_body, base_url, "script", "src");
    proof {
        assert(views_of(out@).to_set() =~= extract_upto(h, b, 4));
    }
    add_pair_values(&mut out, html_body, base_url, "video", "src");
    proof {
        assert(views_of(out@).to_set() =~= extract_upto(h, b, 5));
    }
    add_pair_values(&mut out, html_body, base_url, "audio", "src");
    proof {
        assert(views_of(out@).to_set() =~= extract_upto(h, b, 6));
    }
    add_pair_values(&mut out, html_body, base_url, "source", "src");
    proof {
        assert(views_of(out@).to_set() =~= extract_upto(h, b, 7));
    }
    out
}

/// Every URL resolved from a prefix of attribute values has an accepted
/// scheme.
proof fn lemma_resolved_prefix_scheme(base: Seq<char>, vals: Seq<Seq<char>>, n: int, u: Seq<char>)
    requires
        resolved_prefix(base, vals, n).contains(u),
    ensures
        scheme_ok(u),
    decreases n,
{
    if n <= 0 {
    } else {
        match spec_resolve(base, vals[n - 1]) {
            Some(w) => {
                if u != w {
                    lemma_resolved_prefix_scheme(base, vals, n - 1, u);
                }
            },
            None => {
                lemma_resolved_prefix_scheme(base, vals, n - 1, u);
            },
        }
    }
}

/// Law: whatever the input document, every member of the extracted asset set
/// is an absolute URL whose scheme is `http` or `https`.
pub proof fn lemma_extract_members_scheme_ok(html: Seq<char>, base: Seq<char>, u: Seq<char>)
    requires
        spec_extract(html, base).contains(u),
    ensures
        scheme_ok(u),
{
    lemma_extract_upto_scheme_ok(html, base, 7, u);
}

/// Every member contributed by the first `p` pairs has an accepted scheme.
proof fn lemma_extract_upto_scheme_ok(html: Seq<char>, base: Seq<char>, p: int, u: Seq<char>)
    requires
        extract_upto(html, base, p).contains(u),
    ensures
        scheme_ok(u),
    decreases p,
{
    if p <= 0 {
    } else {
        let vals = attr_values_of(html, pair_tag(p - 1), pair_attr(p - 1));
        if resolved_values(base, vals).contains(u) {
            lemma_resolved_prefix_scheme(base, vals, vals.len() as int, u);
        } else {
            lemma_extract_upto_scheme_ok(html, base, p - 1, u);
        }
    }
}

} // verus!
