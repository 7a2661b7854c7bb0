use launchcore::download::{
    check_digests, clamp_concurrency, compute_sha1, compute_sha256, plan_task, verify_checksum,
    DownloadTask, GlobalProgress, TaskPlan,
};

const ABC_SHA256: &str = "ba7816bf8f01cfea414140de5dae2223b00361a396177a9cb410ff61f20015ad";
const ABC_SHA1: &str = "a9993e364706816aba3e25717850c26c9cd0d89d";

fn task(sha1: Option<&str>, sha256: Option<&str>) -> DownloadTask {
    DownloadTask {
        url: "https://example.com/f".to_string(),
        path: "/tmp/f".to_string(),
        sha1: sha1.map(|s| s.to_string()),
        sha256: sha256.map(|s| s.to_string()),
    }
}

#[test]
fn digests_are_lower_hex() {
    assert_eq!(compute_sha256(b"abc"), ABC_SHA256);
    assert_eq!(compute_sha1(b"abc"), ABC_SHA1);
}

#[test]
fn checksum_prefers_sha256_then_sha1() {
    assert!(verify_checksum(b"abc", Some(ABC_SHA256), Some("wrong")));
    assert!(!verify_checksum(b"abc", Some("wrong"), Some(ABC_SHA1)));
    assert!(verify_checksum(b"abc", None, Some(ABC_SHA1)));
    assert!(!verify_checksum(b"abd", None, Some(ABC_SHA1)));
    assert!(verify_checksum(b"anything", None, None));
}

#[test]
fn check_digests_on_given_values() {
    assert!(check_digests("aa", "bb", Some("aa"), Some("zz")));
    assert!(!check_digests("aa", "bb", Some("ab"), None));
    assert!(check_digests("aa", "bb", None, Some("bb")));
    assert!(check_digests("aa", "bb", None, None));
}

#[test]
fn concurrency_is_clamped() {
    assert_eq!(clamp_concurrency(0), 1);
    assert_eq!(clamp_concurrency(1), 1);
    assert_eq!(clamp_concurrency(32), 32);
    assert_eq!(clamp_concurrency(128), 128);
    assert_eq!(clamp_concurrency(1000), 128);
}

#[test]
fn matching_file_is_skipped_and_counted_once() {
    let t = task(Some(ABC_SHA1), None);
    let plan = plan_task(&t, Some(b"abc"));
    assert_eq!(plan, TaskPlan::Skip { existing_bytes: 3 });
    let mut progress = GlobalProgress::new(1);
    let snap = match plan {
        TaskPlan::Skip { existing_bytes } => progress.record_skip(existing_bytes),
        TaskPlan::Fetch => panic!("no request expected"),
    };
    assert_eq!(snap.completed_files, 1);
    assert_eq!(snap.total_downloaded_bytes, 3);
    assert_eq!(snap.total_files, 1);
}

#[test]
fn mismatch_refetches_then_skips() {
    let t = task(None, Some(ABC_SHA256));
    assert_eq!(plan_task(&t, Some(b"stale")), TaskPlan::Fetch);
    assert_eq!(plan_task(&t, Some(b"abc")), TaskPlan::Skip { existing_bytes: 3 });
}

#[test]
fn missing_file_or_missing_digest_fetches() {
    assert_eq!(plan_task(&task(Some(ABC_SHA1), None), None), TaskPlan::Fetch);
    assert_eq!(plan_task(&task(None, None), Some(b"abc")), TaskPlan::Fetch);
}

#[test]
fn progress_counters_only_grow() {
    let mut p = GlobalProgress::new(3);
    assert_eq!(p.snapshot().completed_files, 0);
    let s = p.add_bytes(10);
    assert_eq!(s.total_downloaded_bytes, 10);
    let s = p.add_bytes(u64::MAX);
    assert_eq!(s.total_downloaded_bytes, u64::MAX);
    let s = p.inc_completed();
    assert_eq!(s.completed_files, 1);
    assert_eq!(s.total_files, 3);
}
