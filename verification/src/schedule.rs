//! The download scheduler's accounting model: one task per asset, the
//! skip-if-present rule against the output directory, and a summary whose
//! counts partition the assets with no double-counting. The directory is
//! modelled by the set of file names it holds.

use vstd::prelude::*;
use crate::filename::{derive_filename, spec_derive_filename};
use crate::retry::FetchOutcome;
use crate::strutil::{contains_string, push_if_absent, views_of};

verus! {

/// The outcome of one asset's task, as the summary counts it.
#[derive(Clone, Debug, PartialEq, Eq)]
pub enum DownloadResult {
    /// The body was fetched and written under this file name.
    Saved(String),
    /// A file of this name already existed, so no network activity happened.
    SkippedExists(String),
    /// The fetch ended without a body; the terminal outcome says why.
    Failed(FetchOutcome),
}

/// The mathematical form of a task's outcome.
pub enum SpecResult {
    Saved(Seq<char>),
    SkippedExists(Seq<char>),
    Failed(FetchOutcome),
}

/// The view of one task outcome.
pub open spec fn result_view(r: DownloadResult) -> SpecResult {
    match r {
        DownloadResult::Saved(name) => SpecResult::Saved(name@),
        DownloadResult::SkippedExists(name) => SpecResult::SkippedExists(name@),
        DownloadResult::Failed(o) => SpecResult::Failed(o),
    }
}

/// The views of a vector of task outcomes.
pub open spec fn results_view(rs: Seq<DownloadResult>) -> Seq<SpecResult> {
    rs.map_values(|r: DownloadResult| result_view(r))
}

/// The directory contents after the first `n` tasks have run: a task adds
/// its derived file name exactly when the name is not yet present and its
/// fetch succeeds.
pub open spec fn dir_after(
    assets: Seq<Seq<char>>,
    outs: Seq<FetchOutcome>,
    dir0: Set<Seq<char>>,
    n: int,
) -> Set<Seq<char>>
    decreases n,
{
    if n <= 0 {
        dir0
    } else {
        let d = dir_after(assets, outs, dir0, n - 1);
        let name = spec_derive_filename(assets[n - 1]);
        if !d.contains(name) && outs[n - 1] is Success {
            d.insert(name)
        } else {
            d
        }
    }
}

/// The outcome of the task at index `i`: skipped when its file name already
/// exists by the time it runs, saved when its fetch succeeds, and failed
/// otherwise — one asset's failure never touches the other tasks.
pub open spec fn task_result(
    assets: Seq<Seq<char>>,
    outs: Seq<FetchOutcome>,
    dir0: Set<Seq<char>>,
    i: int,
) -> SpecResult {
    let d = dir_after(assets, outs, dir0, i);
    let name = spec_derive_filename(assets[i]);
    if d.contains(name) {
        SpecResult::SkippedExists(name)
    } else if outs[i] is Success {
        SpecResult::Saved(name)
    } else {
        SpecResult::Failed(outs[i])
    }
}

/// How many of the results are saves.
pub open spec fn count_saved(rs: Seq<SpecResult>) -> int
    decreases rs.len(),
{
    if rs.len() == 0 {
        0
    } else {
        count_saved(rs.drop_last()) + if rs.last() is Saved {
            1int
        } else {
            0int
        }
    }
}

/// How many of the results are skips.
pub open spec fn count_skipped(rs: Seq<SpecResult>) -> int
    decreases rs.len(),
{
    if rs.len() == 0 {
        0
    } else {
        count_skipped(rs.drop_last()) + if rs.last() is SkippedExists {
            1int
        } else {
            0int
        }
    }
}

/// How many of the results are failures.
pub open spec fn count_failed(rs: Seq<SpecResult>) -> int
    decreases rs.len(),
{
    if rs.len() == 0 {
        0
    } else {
        count_failed(rs.drop_last()) + if rs.last() is Failed {
            1int
        } else {
            0int
        }
    }
}

/// Law: the three counts partition any sequence of results — every task is
/// counted exactly once.
pub proof fn lemma_counts_partition(rs: Seq<SpecResult>)
    ensures
        count_saved(rs) + count_skipped(rs) + count_failed(rs) == rs.len(),
    decreases rs.len(),
{
    if rs.len() > 0 {
        lemma_counts_partition(rs.drop_last());
    }
}

/// The aggregate progress of one scheduler run, per asset.
#[derive(Clone, Copy, Debug, PartialEq, Eq, Structural)]
pub struct Summary {
    pub saved: usize,
    pub skipped: usize,
    pub failed: usize,
}

/// Runs the per-asset accounting of one scheduler pass, in order: derive the
/// file name, skip without network activity when it already exists in `dir`,
/// otherwise record the fetch's outcome for that asset and, on success, add
/// the name to `dir`. Returns one result per asset and the summary counts,
/// which partition the assets.
pub fn run_schedule(
    assets: &Vec<String>,
    outcomes: &Vec<FetchOutcome>,
    dir: &mut Vec<String>,
) -> (r: (Vec<DownloadResult>, Summary))
    requires
        outcomes@.len() == assets@.len(),
        views_of(old(dir)@).no_duplicates(),
    ensures
        r.0@.len() == assets@.len(),
        forall|i: int|
            0 <= i < assets@.len() ==> result_view(r.0@[i]) == task_result(
                views_of(assets@),
                outcomes@,
                views_of(old(dir)@).to_set(),
                i,
            ),
        views_of(final(dir)@).to_set() == dir_after(
            views_of(assets@),
            outcomes@,
            views_of(old(dir)@).to_set(),
            assets@.len() as int,
        ),
        views_of(final(dir)@).no_duplicates(),
        r.1.saved == count_saved(results_view(r.0@)),
        r.1.skipped == count_skipped(results_view(r.0@)),
        r.1.failed == count_failed(results_view(r.0@)),
        r.1.saved + r.1.skipped + r.1.failed == assets@.len(),
{
    let ghost av = views_of(assets@);
    let ghost d0 = views_of(old(dir)@).to_set();
    let mut results: Vec<DownloadResult> = Vec::new();
    let mut summary = Summary { saved: 0, skipped: 0, failed: 0 };
    let mut i: usize = 0;
    while i < assets.len()
        invariant
            av == views_of(assets@),
            d0 == views_of(old(dir)@).to_set(),
            outcomes@.len() == assets@.len(),
            i <= assets@.len(),
            results@.len() == i,
            forall|j: int| 0 <= j < i ==> result_view(results@[j]) == task_result(av, outcomes@, d0, j),
            views_of(dir@).to_set() == dir_after(av, outcomes@, d0, i as int),
            views_of(dir@).no_duplicates(),
            summary.saved == count_saved(results_view(results@)),
            summary.skipped == count_skipped(results_view(results@)),
            summary.failed == count_failed(results_view(results@)),
            summary.saved + summary.skipped + summary.failed == i,
        decreases assets@.len() - i,
    {
        let ghost pre_results = results@;
        let ghost pre_dir = views_of(dir@).to_set();
        let name = derive_filename(assets[i].as_str());
        proof {
            assert(av[i as int] == assets@[i as int]@);
        }
        if contains_string(dir, &name) {
            results.push(DownloadResult::SkippedExists(name));
            summary.skipped = summary.skipped + 1;
        } else {
            match outcomes[i] {
                FetchOutcome::Success(_status) => {
                    results.push(DownloadResult::Saved(name.clone()));
                    push_if_absent(dir, name);
                    summary.saved = summary.saved + 1;
                },
                o => {
                    results.push(DownloadResult::Failed(o));
                    summary.failed = summary.failed + 1;
                },
            }
        }
        proof {
            assert(results@.drop_last() =~= pre_results);
            assert(results_view(results@).drop_last() =~= results_view(pre_results));
            assert(results_view(results@).last() == result_view(results@.last()));
            assert(views_of(dir@).to_set() =~= dir_after(av, outcomes@, d0, i as int + 1));
        }
        i += 1;
    }
    proof {
        lemma_counts_partition(results_view(results@));
    }
    (results, summary)
}

/// The directory model only grows along a run.
pub proof fn lemma_dir_after_grows(
    assets: Seq<Seq<char>>,
    outs: Seq<FetchOutcome>,
    dir0: Set<Seq<char>>,
    m: int,
    n: int,
)
    requires
        m <= n,
    ensures
        dir_after(assets, outs, dir0, m).subset_of(dir_after(assets, outs, dir0, n)),
    decreases n - m,
{
    if m < n {
        lemma_dir_after_grows(assets, outs, dir0, m, n - 1);
    }
}

/// After a full run, the derived name of every asset whose fetch succeeds is
/// present in the directory.
pub proof fn lemma_success_name_present(
    assets: Seq<Seq<char>>,
    outs: Seq<FetchOutcome>,
    dir0: Set<Seq<char>>,
    i: int,
)
    requires
        0 <= i < assets.len(),
        outs[i] is Success,
    ensures
        dir_after(assets, outs, dir0, assets.len() as int).contains(spec_derive_filename(assets[i])),
{
    assert(dir_after(assets, outs, dir0, i + 1).contains(spec_derive_filename(assets[i])));
    lemma_dir_after_grows(assets, outs, dir0, i + 1, assets.len() as int);
}

/// Law (idempotent re-run): a second scheduler pass over the directory the
/// first pass left, with the same assets and the same fetch outcomes, saves
/// nothing; every asset whose fetch succeeds is skipped as already present.
pub proof fn lemma_second_run_saves_nothing(
    assets: Seq<Seq<char>>,
    outs: Seq<FetchOutcome>,
    dir0: Set<Seq<char>>,
    i: int,
)
    requires
        0 <= i < assets.len(),
        outs.len() == assets.len(),
    ensures
        !(task_result(assets, outs, dir_after(assets, outs, dir0, assets.len() as int), i)
            is Saved),
        outs[i] is Success ==> task_result(
            assets,
            outs,
            dir_after(assets, outs, dir0, assets.len() as int),
            i,
        ) == SpecResult::SkippedExists(spec_derive_filename(assets[i])),
{
    let dir1 = dir_after(assets, outs, dir0, assets.len() as int);
    if outs[i] is Success {
        lemma_success_name_present(assets, outs, dir0, i);
        lemma_dir_after_grows(assets, outs, dir1, 0, i);
        assert(dir_after(assets, outs, dir1, i).contains(spec_derive_filename(assets[i])));
    }
}

/// Law (filename collision): when two assets derive the same file name, the
/// name is not yet on disk, and both fetches succeed, exactly the first task
/// saves and the second is skipped — never two saves and never two failures.
pub proof fn lemma_collision_one_saved(
    u1: Seq<char>,
    u2: Seq<char>,
    s1: u16,
    s2: u16,
    dir0: Set<Seq<char>>,
)
    requires
        spec_derive_filename(u1) == spec_derive_filename(u2),
        !dir0.contains(spec_derive_filename(u1)),
    ensures
        task_result(
            seq![u1, u2],
            seq![FetchOutcome::Success(s1), FetchOutcome::Success(s2)],
            dir0,
            0,
        ) == SpecResult::Saved(spec_derive_filename(u1)),
        task_result(
            seq![u1, u2],
            seq![FetchOutcome::Success(s1), FetchOutcome::Success(s2)],
            dir0,
            1,
        ) == SpecResult::SkippedExists(spec_derive_filename(u2)),
{
    let assets = seq![u1, u2];
    let outs = seq![FetchOutcome::Success(s1), FetchOutcome::Success(s2)];
    let name = spec_derive_filename(u1);
    assert(dir_after(assets, outs, dir0, 0) == dir0);
    assert(dir_after(assets, outs, dir0, 1) == dir0.insert(name));
    assert(dir0.insert(name).contains(name));
}

} // verus!
