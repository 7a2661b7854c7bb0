//! Download engine decisions: digest checks, the skip-or-fetch plan of each
//! task, the concurrency bound and the shared progress counters.

use vstd::prelude::*;

verus! {

/// One file to fetch: source URL, destination path and optional digests.
#[derive(Debug, Clone)]
pub struct DownloadTask {
    pub url: String,
    pub path: String,
    pub sha1: Option<String>,
    pub sha256: Option<String>,
}

/// Progress reported to the presentation layer for one file.
#[derive(Debug, Clone)]
pub struct ProgressEvent {
    pub file: String,
    pub downloaded: u64,
    pub total: u64,
    pub status: String,
    pub completed_files: usize,
    pub total_files: usize,
    pub total_downloaded_bytes: u64,
}

/// SHA-256 digest of `data`, as computed by the `sha2` crate.
pub uninterp spec fn sha256_of(data: Seq<u8>) -> Seq<u8>;

/// SHA-1 digest of `data`, as computed by the `sha1` crate.
pub uninterp spec fn sha1_of(data: Seq<u8>) -> Seq<u8>;

/// Lower-case hexadecimal digit for a value below 16.
pub open spec fn hex_digit(v: u8) -> char {
    seq!['0', '1', '2', '3', '4', '5', '6', '7', '8', '9', 'a', 'b', 'c', 'd', 'e', 'f'][v as int]
}

/// Lower-case hexadecimal text of `bytes`: two digits per byte, high first.
pub open spec fn hex_lower(bytes: Seq<u8>) -> Seq<char>
    decreases bytes.len(),
{
    if bytes.len() == 0 {
        Seq::empty()
    } else {
        let b = bytes.last();
        hex_lower(bytes.drop_last()) + seq![hex_digit(b / 16), hex_digit(b % 16)]
    }
}

/// Relies on `sha2::Sha256::digest` (the `Digest` trait): the SHA-256 digest
/// of the bytes, which depends on them alone.
#[verifier::external_body]
fn sha256_digest(data: &[u8]) -> (r: Vec<u8>)
    ensures
        r@ == sha256_of(data@),
{
    <sha2::Sha256 as sha2::Digest>::digest(data).to_vec()
}

/// Relies on `sha1::Sha1::digest` (the `Digest` trait): the SHA-1 digest of
/// the bytes, which depends on them alone.
#[verifier::external_body]
fn sha1_digest(data: &[u8]) -> (r: Vec<u8>)
    ensures
        r@ == sha1_of(data@),
{
    <sha1::Sha1 as sha1::Digest>::digest(data).to_vec()
}

/// Relies on `hex::encode`: two lower-case hexadecimal digits per byte, in
/// order.
#[verifier::external_body]
fn hex_encode(bytes: &[u8]) -> (r: String)
    ensures
        r@ == hex_lower(bytes@),
{
    hex::encode(bytes)
}

/// Lower-case hexadecimal SHA-256 digest of `data`.
pub fn compute_sha256(data: &[u8]) -> (r: String)
    ensures
        r@ == hex_lower(sha256_of(data@)),
{
    let digest = sha256_digest(data);
    hex_encode(digest.as_slice())
}

/// Lower-case hexadecimal SHA-1 digest of `data`.
pub fn compute_sha1(data: &[u8]) -> (r: String)
    ensures
        r@ == hex_lower(sha1_of(data@)),
{
    let digest = sha1_digest(data);
    hex_encode(digest.as_slice())
}

/// View of an optional string slice.
pub open spec fn opt_str(o: Option<&str>) -> Option<Seq<char>> {
    match o {
        None => None,
        Some(s) => Some(s@),
    }
}

/// View of an optional string.
pub open spec fn opt_string(o: Option<String>) -> Option<Seq<char>> {
    match o {
        None => None,
        Some(s) => Some(s@),
    }
}

/// Digest check given the computed hex digests: SHA-256 is preferred, SHA-1
/// is the fallback, and with no expected digest the data counts as valid.
pub open spec fn digest_matches(
    sha256_hex: Seq<char>,
    sha1_hex: Seq<char>,
    sha256: Option<Seq<char>>,
    sha1: Option<Seq<char>>,
) -> bool {
    match sha256 {
        Some(e) => sha256_hex == e,
        None => match sha1 {
            Some(e) => sha1_hex == e,
            None => true,
        },
    }
}

/// Whether `data` matches the expected digests.
pub open spec fn checksum_ok(data: Seq<u8>, sha256: Option<Seq<char>>, sha1: Option<Seq<char>>) -> bool {
    digest_matches(hex_lower(sha256_of(data)), hex_lower(sha1_of(data)), sha256, sha1)
}

fn text_eq(a: &str, b: &str) -> (r: bool)
    ensures
        r == (a@ == b@),
{
    crate::text::str_eq(a, b)
}

/// Compares already computed hex digests with the expected ones.
pub fn check_digests(
    sha256_hex: &str,
    sha1_hex: &str,
    sha256: Option<&str>,
    sha1: Option<&str>,
) -> (r: bool)
    ensures
        r == digest_matches(sha256_hex@, sha1_hex@, opt_str(sha256), opt_str(sha1)),
{
    if let Some(expected) = sha256 {
        return text_eq(sha256_hex, expected);
    }
    if let Some(expected) = sha1 {
        return text_eq(sha1_hex, expected);
    }
    true
}

/// Verifies `data` against the expected digests, SHA-256 first.
pub fn verify_checksum(data: &[u8], sha256: Option<&str>, sha1: Option<&str>) -> (r: bool)
    ensures
        r == checksum_ok(data@, opt_str(sha256), opt_str(sha1)),
{
    if let Some(expected) = sha256 {
        let actual = compute_sha256(data);
        return text_eq(actual.as_str(), expected);
    }
    if let Some(expected) = sha1 {
        let actual = compute_sha1(data);
        return text_eq(actual.as_str(), expected);
    }
    true
}

/// Clamps a requested concurrency bound to `[1, 128]`.
pub fn clamp_concurrency(requested: usize) -> (r: usize)
    ensures
        1 <= r <= 128,
        1 <= requested <= 128 ==> r == requested,
        requested < 1 ==> r == 1,
        requested > 128 ==> r == 128,
{
    if requested < 1 {
        1
    } else if requested > 128 {
        128
    } else {
        requested
    }
}

/// What to do with one task.
#[derive(Debug, Clone, Copy, PartialEq, Eq, Structural)]
pub enum TaskPlan {
    /// The file on disk already matches: no request; its size counts as
    /// transferred.
    Skip { existing_bytes: u64 },
    /// Create the parent directories and stream the body to disk.
    Fetch,
}

/// Whether the task names any digest.
pub open spec fn has_digest(task: DownloadTask) -> bool {
    task.sha256.is_some() || task.sha1.is_some()
}

/// The plan for `task` given the bytes of its destination when it exists:
/// skip exactly when a digest is given and the file matches it.
pub open spec fn planned(task: DownloadTask, existing: Option<Seq<u8>>) -> TaskPlan {
    match existing {
        Some(data) => if has_digest(task) && checksum_ok(data, opt_string(task.sha256), opt_string(task.sha1)) {
            TaskPlan::Skip { existing_bytes: data.len() as u64 }
        } else {
            TaskPlan::Fetch
        },
        None => TaskPlan::Fetch,
    }
}

fn opt_as_str(o: &Option<String>) -> (r: Option<&str>)
    ensures
        opt_str(r) == opt_string(*o),
{
    match o {
        Some(s) => Some(s.as_str()),
        None => None,
    }
}

/// Decides whether `task` needs a network fetch; `existing` holds the bytes
/// of its destination file when that file exists.
pub fn plan_task(task: &DownloadTask, existing: Option<&[u8]>) -> (r: TaskPlan)
    ensures
        r == planned(*task, match existing {
            Some(d) => Some(d@),
            None => None,
        }),
{
    match existing {
        Some(data) => {
            if (task.sha256.is_some() || task.sha1.is_some()) && verify_checksum(
                data,
                opt_as_str(&task.sha256),
                opt_as_str(&task.sha1),
            ) {
                TaskPlan::Skip { existing_bytes: data.len() as u64 }
            } else {
                TaskPlan::Fetch
            }
        },
        None => TaskPlan::Fetch,
    }
}

/// Counters of one download run, read by the progress callback.
#[derive(Debug, Clone, Copy, PartialEq, Eq, Structural)]
pub struct ProgressSnapshot {
    pub completed_files: usize,
    pub total_files: usize,
    pub total_downloaded_bytes: u64,
}

/// Whether snapshot `s` shows the counters of `p`.
pub open spec fn reports(s: ProgressSnapshot, p: GlobalProgress) -> bool {
    &&& s.completed_files as nat == p.completed()
    &&& s.total_files as nat == p.total()
    &&& s.total_downloaded_bytes as nat == p.bytes()
}

/// Shared progress of one download run. Counters never decrease.
pub struct GlobalProgress {
    completed_files: usize,
    total_downloaded_bytes: u64,
    total_files: usize,
}

impl GlobalProgress {
    /// Files completed or skipped so far.
    pub closed spec fn completed(&self) -> nat {
        self.completed_files as nat
    }

    /// Bytes transferred or found on disk so far.
    pub closed spec fn bytes(&self) -> nat {
        self.total_downloaded_bytes as nat
    }

    /// Files in the run.
    pub closed spec fn total(&self) -> nat {
        self.total_files as nat
    }

    /// Progress of a run of `total_files` tasks, nothing done yet.
    pub fn new(total_files: usize) -> (r: Self)
        ensures
            r.completed() == 0,
            r.bytes() == 0,
            r.total() == total_files,
    {
        GlobalProgress { completed_files: 0, total_downloaded_bytes: 0, total_files }
    }

    /// The current counters, unchanged.
    pub fn snapshot(&self) -> (r: ProgressSnapshot)
        ensures
            reports(r, *self),
    {
        ProgressSnapshot {
            completed_files: self.completed_files,
            total_files: self.total_files,
            total_downloaded_bytes: self.total_downloaded_bytes,
        }
    }

    /// Counts one more finished or skipped file.
    pub fn inc_completed(&mut self) -> (r: ProgressSnapshot)
        requires
            old(self).completed() < usize::MAX,
        ensures
            final(self).completed() == old(self).completed() + 1,
            final(self).bytes() == old(self).bytes(),
            final(self).total() == old(self).total(),
            reports(r, *final(self)),
    {
        self.completed_files = self.completed_files + 1;
        self.snapshot()
    }

    /// Adds transferred bytes; the total saturates at the largest `u64`.
    pub fn add_bytes(&mut self, delta: u64) -> (r: ProgressSnapshot)
        ensures
            final(self).bytes() == if old(self).bytes() + delta > u64::MAX {
                u64::MAX as int
            } else {
                old(self).bytes() + delta
            },
            final(self).bytes() >= old(self).bytes(),
            final(self).completed() == old(self).completed(),
            final(self).total() == old(self).total(),
            reports(r, *final(self)),
    {
        self.total_downloaded_bytes = self.total_downloaded_bytes.saturating_add(delta);
        self.snapshot()
    }

    /// Records a task whose file already matched: its size counts as
    /// transferred and it counts as completed once.
    pub fn record_skip(&mut self, existing_bytes: u64) -> (r: ProgressSnapshot)
        requires
            old(self).completed() < usize::MAX,
        ensures
            final(self).completed() == old(self).completed() + 1,
            final(self).bytes() >= old(self).bytes(),
            old(self).bytes() + existing_bytes <= u64::MAX ==> final(self).bytes() == old(self).bytes()
                + existing_bytes,
            final(self).total() == old(self).total(),
            reports(r, *final(self)),
    {
        if existing_bytes > 0 {
            self.add_bytes(existing_bytes);
        }
        self.inc_completed()
    }
}

/// A file that exists and matches its expected digest is not fetched again.
pub proof fn lemma_matching_file_is_skipped(task: DownloadTask, data: Seq<u8>)
    requires
        has_digest(task),
        checksum_ok(data, opt_string(task.sha256), opt_string(task.sha1)),
    ensures
        planned(task, Some(data)) == (TaskPlan::Skip { existing_bytes: data.len() as u64 }),
{
}

/// A file whose digest does not match is fetched; once the fetched bytes
/// match the expected digest, planning the same task again fetches nothing.
pub proof fn lemma_refetch_then_skip(task: DownloadTask, stale: Seq<u8>, fetched: Seq<u8>)
    requires
        has_digest(task),
        !checksum_ok(stale, opt_string(task.sha256), opt_string(task.sha1)),
        checksum_ok(fetched, opt_string(task.sha256), opt_string(task.sha1)),
    ensures
        planned(task, Some(stale)) == TaskPlan::Fetch,
        planned(task, Some(fetched)) is Skip,
{
}

} // verus!
