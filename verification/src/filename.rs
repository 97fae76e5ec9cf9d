//! Deriving a filesystem-safe file name from an absolute asset URL.

use vstd::prelude::*;
use crate::strutil::opt_view;

verus! {

/// The final path segment of a URL string: `None` where the string is not a
/// valid URL or the URL cannot be a base (so it has no path segments), and
/// the (possibly empty) last segment otherwise.
pub uninterp spec fn last_segment_of(url: Seq<char>) -> Option<Seq<char>>;

/// The filesystem-safe form of a file name candidate: path separators,
/// control characters, reserved device names and other characters illegal in
/// file names are removed, possibly leaving the empty string.
pub uninterp spec fn sanitized_of(name: Seq<char>) -> Seq<char>;

/// Relies on `url::Url::parse` and `url::Url::path_segments`: the last path
/// segment of a URL string is a function of that string alone.
#[verifier::external_body]
fn url_last_segment(url: &str) -> (r: Option<String>)
    ensures
        opt_view(r) == last_segment_of(url@),
{
    match url::Url::parse(url) {
        Ok(u) => match u.path_segments() {
            Some(segments) => Some(segments.last().unwrap_or("").to_owned()),
            None => None,
        },
        Err(_) => None,
    }
}

/// Relies on `sanitize_filename::sanitize_with_options`, called with fixed
/// options (the strict rule set of every platform, no replacement,
/// truncation on) so that the result is a function of the input alone.
#[verifier::external_body]
fn sanitize_name(name: &str) -> (r: String)
    ensures
        r@ == sanitized_of(name@),
{
    sanitize_filename::sanitize_with_options(
        name,
        sanitize_filename::Options { windows: true, truncate: true, replacement: "" },
    )
}

/// The file name `derive_filename` yields: the sanitized final path segment,
/// with `index.html` standing in where the segment is absent or empty and
/// `unknown_file` where sanitization leaves nothing.
pub open spec fn spec_derive_filename(url: Seq<char>) -> Seq<char> {
    match last_segment_of(url) {
        None => "index.html"@,
        Some(seg) => if seg.len() == 0 {
            "index.html"@
        } else if sanitized_of(seg).len() == 0 {
            "unknown_file"@
        } else {
            sanitized_of(seg)
        },
    }
}

/// Maps an absolute URL to a filesystem-safe relative file name: the
/// sanitized final path segment, or a fixed fallback where the segment is
/// absent, empty, or empty after sanitization. Distinct URLs may derive the
/// same name; the scheduler's exists-on-disk rule resolves such collisions.
pub fn derive_filename(url: &str) -> (r: String)
    ensures
        r@ == spec_derive_filename(url@),
{
    match url_last_segment(url) {
        None => "index.html".to_owned(),
        Some(seg) => {
            if seg.as_str().is_empty() {
                "index.html".to_owned()
            } else {
                let safe = sanitize_name(seg.as_str());
                if safe.as_str().is_empty() {
                    "unknown_file".to_owned()
                } else {
                    safe
                }
            }
        },
    }
}

} // verus!
