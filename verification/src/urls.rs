//! URL resolution: joining a reference against an absolute base and keeping
//! only the results whose scheme is `http` or `https`.

use vstd::prelude::*;
use crate::strutil::opt_view;

verus! {

/// The absolute URL string that standard URL resolution produces for
/// `reference` joined against `base`, or `None` where either `base` is not a
/// valid absolute URL or the join fails.
pub uninterp spec fn join_of(base: Seq<char>, reference: Seq<char>) -> Option<Seq<char>>;

/// The scheme of a URL string, or `None` where the string is not a valid
/// absolute URL.
pub uninterp spec fn scheme_of(url: Seq<char>) -> Option<Seq<char>>;

/// Relies on `url::Url::parse` and `url::Url::join`: resolving a reference
/// against a base URL is a function of the two strings alone.
#[verifier::external_body]
fn url_join(base: &str, reference: &str) -> (r: Option<String>)
    ensures
        opt_view(r) == join_of(base@, reference@),
{
    match url::Url::parse(base) {
        Ok(b) => match b.join(reference) {
            Ok(u) => Some(u.as_str().to_owned()),
            Err(_) => None,
        },
        Err(_) => None,
    }
}

/// Relies on `url::Url::parse` and `url::Url::scheme`: the scheme of a URL
/// string is a function of that string alone.
#[verifier::external_body]
fn url_scheme(url: &str) -> (r: Option<String>)
    ensures
        opt_view(r) == scheme_of(url@),
{
    match url::Url::parse(url) {
        Ok(u) => Some(u.scheme().to_owned()),
        Err(_) => None,
    }
}

/// Whether a URL string has one of the two accepted schemes.
pub open spec fn scheme_ok(url: Seq<char>) -> bool {
    scheme_of(url) == Some("http"@) || scheme_of(url) == Some("https"@)
}

/// The absolute URL that `resolve` yields: the joined URL where the join
/// succeeds and its scheme is `http` or `https`, and `None` otherwise.
pub open spec fn spec_resolve(base: Seq<char>, reference: Seq<char>) -> Option<Seq<char>> {
    match join_of(base, reference) {
        Some(u) => if scheme_ok(u) {
            Some(u)
        } else {
            None
        },
        None => None,
    }
}

/// Joins `reference` against `base` and keeps the result only when its
/// scheme is `http` or `https`; candidates with any other scheme, and
/// references that do not resolve at all, are dropped as `None`.
pub fn resolve(base: &str, reference: &str) -> (r: Option<String>)
    ensures
        opt_view(r) == spec_resolve(base@, reference@),
{
    match url_join(base, reference) {
        Some(u) => {
            let accepted = match url_scheme(u.as_str()) {
                Some(s) => {
                    let http: String = "http".to_owned();
                    let https: String = "https".to_owned();
                    s == http || s == https
                },
                None => false,
            };
            if accepted {
                Some(u)
            } else {
                None
            }
        },
        None => None,
    }
}

/// Law: for every pair that resolves at all, the result is dropped exactly
/// when the joined URL's scheme is neither `http` nor `https`.
pub proof fn lemma_resolve_none_iff_not_http(base: Seq<char>, reference: Seq<char>)
    requires
        join_of(base, reference) is Some,
    ensures
        spec_resolve(base, reference) is None <==> !scheme_ok(join_of(base, reference)->Some_0),
{
}

} // verus!
