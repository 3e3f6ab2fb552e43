//! Layout of the shared queue directory tree.
//!
//! Every path the protocol touches is derived here from the configured
//! root, so that the rest of the crate can speak about locations purely
//! in terms of these functions.  Identifiers that become path segments
//! are validated before use: a segment must be non-empty and must not
//! contain a separator or be the parent-directory name, so that a
//! caller-supplied identifier can never escape the tree.

use vstd::prelude::*;
use vstd::string::*;

verus! {

/// True for the characters that separate path components.
pub open spec fn is_path_separator(c: char) -> bool {
    c == '/' || c == '\\'
}

/// A string usable verbatim as a single path segment: non-empty, free
/// of separators, and not the parent-directory name `..`.
pub open spec fn valid_segment(s: Seq<char>) -> bool {
    &&& s.len() > 0
    &&& (forall|i: int| 0 <= i < s.len() ==> !is_path_separator(#[trigger] s[i]))
    &&& s != ".."@
}

/// Checks that `s` can be used verbatim as a single path segment.
pub fn check_segment(s: &str) -> (r: bool)
    ensures
        r == valid_segment(s@),
{
    proof {
        reveal_strlit("..");
    }
    let len = s.unicode_len();
    if len == 0 {
        return false;
    }
    if len == 2 && s.get_char(0) == '.' && s.get_char(1) == '.' {
        proof {
            assert(s@ =~= ".."@);
        }
        return false;
    }
    assert(s@ != ".."@) by {
        if s@.len() == 2 {
            assert(s@[0] != '.' || s@[1] != '.');
        }
    }
    let mut i: usize = 0;
    while i < len
        invariant
            0 <= i <= len,
            len == s@.len(),
            forall|j: int| 0 <= j < i ==> !is_path_separator(#[trigger] s@[j]),
        decreases len - i,
    {
        let c = s.get_char(i);
        if c == '/' || c == '\\' {
            return false;
        }
        i = i + 1;
    }
    true
}

/// The inbox directory for image jobs of one worker.
pub open spec fn image_inbox_dir_spec(root: Seq<char>, worker_id: Seq<char>) -> Seq<char> {
    root + "/image/assigned/"@ + worker_id + "/inbox"@
}

/// The file an image job is written to inside the worker's inbox.
pub open spec fn image_job_file_spec(root: Seq<char>, worker_id: Seq<char>, job_id: Seq<char>) -> Seq<char> {
    image_inbox_dir_spec(root, worker_id) + "/"@ + job_id + ".txt"@
}

/// The inbox directory for video jobs of one worker.
pub open spec fn video_inbox_dir_spec(root: Seq<char>, worker_id: Seq<char>) -> Seq<char> {
    root + "/video/assigned/"@ + worker_id + "/inbox"@
}

/// The directory that holds one dispatched video job.
pub open spec fn video_job_dir_spec(root: Seq<char>, worker_id: Seq<char>, job_id: Seq<char>) -> Seq<char> {
    video_inbox_dir_spec(root, worker_id) + "/"@ + job_id
}

/// A file placed directly inside a video job's directory.
pub open spec fn job_entry_spec(job_dir: Seq<char>, name: Seq<char>) -> Seq<char> {
    job_dir + "/"@ + name
}

/// The manifest file of a video job.
pub open spec fn manifest_file_spec(root: Seq<char>, worker_id: Seq<char>, job_id: Seq<char>) -> Seq<char> {
    video_job_dir_spec(root, worker_id, job_id) + "/prompts.json"@
}

/// The zero-byte sentinel whose presence marks a video job complete.
pub open spec fn ready_file_spec(root: Seq<char>, worker_id: Seq<char>, job_id: Seq<char>) -> Seq<char> {
    video_job_dir_spec(root, worker_id, job_id) + "/READY"@
}

/// The directory the workers write their heartbeat files into.
pub open spec fn heartbeats_dir_spec(root: Seq<char>) -> Seq<char> {
    root + "/heartbeats"@
}

/// The outbox that completed image batches appear under.
pub open spec fn outbox_dir_spec(root: Seq<char>) -> Seq<char> {
    root + "/image/outbox"@
}

/// The directory of one completed image batch.
pub open spec fn outbox_job_dir_spec(root: Seq<char>, job_name: Seq<char>) -> Seq<char> {
    outbox_dir_spec(root) + "/"@ + job_name
}

/// Builds the image inbox directory path of one worker.
pub fn image_inbox_dir(root: &str, worker_id: &str) -> (r: String)
    ensures
        r@ == image_inbox_dir_spec(root@, worker_id@),
{
    let mut s = root.to_owned();
    s.append("/image/assigned/");
    s.append(worker_id);
    s.append("/inbox");
    s
}

/// Builds the path of the file an image job is written to.
pub fn image_job_file(root: &str, worker_id: &str, job_id: &str) -> (r: String)
    ensures
        r@ == image_job_file_spec(root@, worker_id@, job_id@),
{
    let mut s = image_inbox_dir(root, worker_id);
    s.append("/");
    s.append(job_id);
    s.append(".txt");
    s
}

/// Builds the video inbox directory path of one worker.
pub fn video_inbox_dir(root: &str, worker_id: &str) -> (r: String)
    ensures
        r@ == video_inbox_dir_spec(root@, worker_id@),
{
    let mut s = root.to_owned();
    s.append("/video/assigned/");
    s.append(worker_id);
    s.append("/inbox");
    s
}

/// Builds the directory path of one video job.
pub fn video_job_dir(root: &str, worker_id: &str, job_id: &str) -> (r: String)
    ensures
        r@ == video_job_dir_spec(root@, worker_id@, job_id@),
{
    let mut s = video_inbox_dir(root, worker_id);
    s.append("/");
    s.append(job_id);
    s
}

/// Builds the path of a file directly inside a job directory.
pub fn job_entry(job_dir: &str, name: &str) -> (r: String)
    ensures
        r@ == job_entry_spec(job_dir@, name@),
{
    let mut s = job_dir.to_owned();
    s.append("/");
    s.append(name);
    s
}

/// Builds the manifest file path of one video job.
pub fn manifest_file(root: &str, worker_id: &str, job_id: &str) -> (r: String)
    ensures
        r@ == manifest_file_spec(root@, worker_id@, job_id@),
{
    let mut s = video_job_dir(root, worker_id, job_id);
    s.append("/prompts.json");
    s
}

/// Builds the sentinel file path of one video job.
pub fn ready_file(root: &str, worker_id: &str, job_id: &str) -> (r: String)
    ensures
        r@ == ready_file_spec(root@, worker_id@, job_id@),
{
    let mut s = video_job_dir(root, worker_id, job_id);
    s.append("/READY");
    s
}

/// Builds the heartbeats directory path.
pub fn heartbeats_dir(root: &str) -> (r: String)
    ensures
        r@ == heartbeats_dir_spec(root@),
{
    let mut s = root.to_owned();
    s.append("/heartbeats");
    s
}

/// Builds the image outbox directory path.
pub fn outbox_dir(root: &str) -> (r: String)
    ensures
        r@ == outbox_dir_spec(root@),
{
    let mut s = root.to_owned();
    s.append("/image/outbox");
    s
}

/// Builds the directory path of one completed image batch.
pub fn outbox_job_dir(root: &str, job_name: &str) -> (r: String)
    ensures
        r@ == outbox_job_dir_spec(root@, job_name@),
{
    let mut s = outbox_dir(root);
    s.append("/");
    s.append(job_name);
    s
}

} // verus!
