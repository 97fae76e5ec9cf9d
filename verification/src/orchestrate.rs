//! The run's fixed sequence: fetch the root page, persist it as
//! `index.html`, extract the asset set with the root's own URL removed, and
//! hand that set to the scheduler. The fetching and writing are the caller's
//! I/O; the decisions are here.

use vstd::prelude::*;
use crate::extract::{extract_assets, spec_extract};
use crate::retry::FetchOutcome;
use crate::schedule::Summary;
use crate::strutil::{lemma_push_to_set, push_if_absent, views_of};

verus! {

/// The fixed file name under which the root page's body is persisted,
/// unconditionally overwritten on every run.
pub fn root_file_name() -> (r: String)
    ensures
        r@ == "index.html"@,
{
    "index.html".to_owned()
}

/// What a whole run reports: the root fetch's terminal outcome and, where
/// the root page was obtained, the scheduler's summary.
pub struct RunReport {
    pub root: FetchOutcome,
    pub summary: Option<Summary>,
}

/// Whether the run may continue past the root fetch: only a 2xx response
/// will do — a fatal status or exhausted retries is terminal for the whole
/// run, since no assets can be discovered without the root page.
pub fn root_fetch_ok(outcome: &FetchOutcome) -> (b: bool)
    ensures
        b == (*outcome is Success),
{
    match *outcome {
        FetchOutcome::Success(_) => true,
        _ => false,
    }
}

/// Whether a concurrency limit is usable: zero is a configuration error of
/// the caller, never silently clamped.
pub fn concurrency_limit_ok(limit: usize) -> (b: bool)
    ensures
        b == (limit >= 1),
{
    limit >= 1
}

/// The assets one run schedules: every URL extracted from the root document,
/// resolved against the root's URL, minus the root URL itself — the root is
/// persisted separately as the index artifact, never as an asset.
pub fn plan_assets(html_body: &str, root_url: &str) -> (r: Vec<String>)
    ensures
        views_of(r@).to_set() == spec_extract(html_body@, root_url@).remove(root_url@),
        views_of(r@).no_duplicates(),
{
    let all = extract_assets(html_body, root_url);
    let root: String = root_url.to_owned();
    let ghost av = views_of(all@);
    let mut out: Vec<String> = Vec::new();
    proof {
        assert(av.take(0) =~= Seq::<Seq<char>>::empty());
        assert(views_of(out@).to_set() =~= av.take(0).to_set().remove(root@));
    }
    let mut i: usize = 0;
    while i < all.len()
        invariant
            i <= all@.len(),
            av == views_of(all@),
            av.to_set() == spec_extract(html_body@, root_url@),
            root@ == root_url@,
            views_of(out@).no_duplicates(),
            views_of(out@).to_set() == av.take(i as int).to_set().remove(root@),
        decreases all@.len() - i,
    {
        proof {
            assert(av[i as int] == all@[i as int]@);
            assert(av.take(i as int + 1) =~= av.take(i as int).push(av[i as int]));
            lemma_push_to_set(av.take(i as int), av[i as int]);
        }
        if all[i] == root {
            proof {
                assert(av.take(i as int + 1).to_set().remove(root@) =~= av.take(
                    i as int,
                ).to_set().remove(root@));
            }
        } else {
            let u = all[i].clone();
            push_if_absent(&mut out, u);
            proof {
                assert(av.take(i as int + 1).to_set().remove(root@) =~= av.take(
                    i as int,
                ).to_set().remove(root@).insert(av[i as int]));
            }
        }
        i += 1;
    }
    proof {
        assert(av.take(all@.len() as int) =~= av);
    }
    out
}

} // verus!
