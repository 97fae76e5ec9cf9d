use ferris_fetch::agent::{get_random_user_agent, user_agent_at};
use ferris_fetch::orchestrate::{concurrency_limit_ok, root_fetch_ok, root_file_name};
use ferris_fetch::retry::FetchOutcome;
use ferris_fetch::schedule::{run_schedule, DownloadResult, Summary};
use ferris_fetch::strutil::{contains_string, push_if_absent};

#[test]
fn mixed_run_partitions_the_assets() {
    let assets = vec![
        "https://ex.test/a.png".to_string(),
        "https://ex.test/b.png".to_string(),
        "https://ex.test/c.png".to_string(),
    ];
    let outcomes = vec![
        FetchOutcome::Success(200),
        FetchOutcome::FatalStatus(404),
        FetchOutcome::Exhausted,
    ];
    let mut dir: Vec<String> = Vec::new();
    let (results, summary) = run_schedule(&assets, &outcomes, &mut dir);
    assert_eq!(results.len(), 3);
    assert_eq!(results[0], DownloadResult::Saved("a.png".to_string()));
    assert_eq!(results[1], DownloadResult::Failed(FetchOutcome::FatalStatus(404)));
    assert_eq!(results[2], DownloadResult::Failed(FetchOutcome::Exhausted));
    assert_eq!(summary, Summary { saved: 1, skipped: 0, failed: 2 });
    assert_eq!(summary.saved + summary.skipped + summary.failed, assets.len());
    assert_eq!(dir, vec!["a.png".to_string()]);
}

#[test]
fn second_run_over_same_directory_saves_nothing() {
    let assets = vec![
        "https://ex.test/a.png".to_string(),
        "https://ex.test/b.png".to_string(),
    ];
    let outcomes = vec![FetchOutcome::Success(200), FetchOutcome::Success(200)];
    let mut dir: Vec<String> = Vec::new();
    let (_, first) = run_schedule(&assets, &outcomes, &mut dir);
    assert_eq!(first, Summary { saved: 2, skipped: 0, failed: 0 });
    let (results, second) = run_schedule(&assets, &outcomes, &mut dir);
    assert_eq!(second, Summary { saved: 0, skipped: 2, failed: 0 });
    assert_eq!(results[0], DownloadResult::SkippedExists("a.png".to_string()));
    assert_eq!(results[1], DownloadResult::SkippedExists("b.png".to_string()));
    assert_eq!(dir.len(), 2);
}

#[test]
fn filename_collision_saves_once_and_skips_once() {
    let assets = vec![
        "https://one.test/x/logo.png".to_string(),
        "https://two.test/y/logo.png".to_string(),
    ];
    let outcomes = vec![FetchOutcome::Success(200), FetchOutcome::Success(200)];
    let mut dir: Vec<String> = Vec::new();
    let (results, summary) = run_schedule(&assets, &outcomes, &mut dir);
    assert_eq!(results[0], DownloadResult::Saved("logo.png".to_string()));
    assert_eq!(results[1], DownloadResult::SkippedExists("logo.png".to_string()));
    assert_eq!(summary, Summary { saved: 1, skipped: 1, failed: 0 });
    assert_eq!(dir, vec!["logo.png".to_string()]);
}

#[test]
fn existing_file_is_skipped_without_network_use() {
    let assets = vec!["https://ex.test/a.png".to_string()];
    // Even a failing outcome is never reached for a file already on disk.
    let outcomes = vec![FetchOutcome::FatalStatus(404)];
    let mut dir = vec!["a.png".to_string()];
    let (results, summary) = run_schedule(&assets, &outcomes, &mut dir);
    assert_eq!(results[0], DownloadResult::SkippedExists("a.png".to_string()));
    assert_eq!(summary, Summary { saved: 0, skipped: 1, failed: 0 });
}

#[test]
fn root_outcome_gates_the_run() {
    assert!(root_fetch_ok(&FetchOutcome::Success(200)));
    assert!(!root_fetch_ok(&FetchOutcome::FatalStatus(404)));
    assert!(!root_fetch_ok(&FetchOutcome::Exhausted));
}

#[test]
fn concurrency_limit_zero_is_rejected() {
    assert!(!concurrency_limit_ok(0));
    assert!(concurrency_limit_ok(1));
    assert!(concurrency_limit_ok(50));
}

#[test]
fn root_artifact_name_is_fixed() {
    assert_eq!(root_file_name(), "index.html");
}

#[test]
fn user_agent_comes_from_the_fixed_pool() {
    let pool = vec![
        user_agent_at(0),
        user_agent_at(1),
        user_agent_at(2),
        user_agent_at(3),
        user_agent_at(4),
    ];
    assert_eq!(user_agent_at(7), pool[2]);
    for _ in 0..20 {
        let ua = get_random_user_agent();
        assert!(pool.contains(&ua));
        assert!(ua.starts_with("Mozilla/5.0"));
    }
}

#[test]
fn string_vector_membership_and_dedup() {
    let mut v = vec!["a".to_string(), "b".to_string()];
    assert!(contains_string(&v, &"a".to_string()));
    assert!(!contains_string(&v, &"c".to_string()));
    push_if_absent(&mut v, "b".to_string());
    assert_eq!(v.len(), 2);
    push_if_absent(&mut v, "c".to_string());
    assert_eq!(v.len(), 3);
}
