//! The dispatch protocol: how a job becomes files in a worker's inbox.
//!
//! A dispatch is planned as a sequence of filesystem actions
//! ([`FsAction`]).  The host program performs the actions strictly in
//! the order given, stopping at the first failure.  The central
//! invariant of the protocol is encoded in the order of a video plan:
//! the zero-byte `READY` sentinel is the last action, after every asset
//! copy and the manifest write, so a worker that sees the sentinel sees
//! a complete job directory.

use vstd::prelude::*;
use vstd::string::*;
use crate::manifest::{build_manifest_json, json_pretty_of, manifest_of, VideoTask};
use crate::paths::{
    check_segment, image_job_file, image_job_file_spec, job_entry, job_entry_spec, manifest_file,
    manifest_file_spec, ready_file, ready_file_spec, valid_segment, video_job_dir,
    video_job_dir_spec,
};

verus! {

/// One filesystem operation of a dispatch plan.
pub enum FsAction {
    /// Create this directory and every missing ancestor.
    CreateDir { path: String },
    /// Copy the source file to `dest`, the job-directory entry named
    /// `asset_name`.
    CopyAsset { source: String, dest: String, asset_name: String },
    /// Write the serialized manifest to `path`.
    WriteManifest { path: String, content: String },
    /// Create the zero-byte sentinel at `path`.
    WriteSentinel { path: String },
    /// Write an image job's prompt to `path`.
    WriteJobFile { path: String, content: String },
}

/// The path an action creates or writes.
pub open spec fn action_target(a: FsAction) -> Seq<char> {
    match a {
        FsAction::CreateDir { path } => path@,
        FsAction::CopyAsset { dest, .. } => dest@,
        FsAction::WriteManifest { path, .. } => path@,
        FsAction::WriteSentinel { path } => path@,
        FsAction::WriteJobFile { path, .. } => path@,
    }
}

/// Two actions that perform the same filesystem operation.
pub open spec fn actions_match(a: FsAction, b: FsAction) -> bool {
    match (a, b) {
        (FsAction::CreateDir { path: p1 }, FsAction::CreateDir { path: p2 }) => p1@ == p2@,
        (
            FsAction::CopyAsset { source: s1, dest: d1, asset_name: n1 },
            FsAction::CopyAsset { source: s2, dest: d2, asset_name: n2 },
        ) => s1@ == s2@ && d1@ == d2@ && n1@ == n2@,
        (
            FsAction::WriteManifest { path: p1, content: c1 },
            FsAction::WriteManifest { path: p2, content: c2 },
        ) => p1@ == p2@ && c1@ == c2@,
        (FsAction::WriteSentinel { path: p1 }, FsAction::WriteSentinel { path: p2 }) => p1@ == p2@,
        (
            FsAction::WriteJobFile { path: p1, content: c1 },
            FsAction::WriteJobFile { path: p2, content: c2 },
        ) => p1@ == p2@ && c1@ == c2@,
        _ => false,
    }
}

/// Why a dispatch could not be planned, or why a planned action failed.
#[derive(Debug)]
pub enum DispatchError {
    /// An identifier cannot be used as a path segment.
    InvalidPathSegment { segment: String },
    /// The worker's inbox directory has not been provisioned.
    MissingPrerequisiteDirectory { worker_id: String },
    /// The manifest could not be encoded.  Part of the protocol's error
    /// taxonomy for hosts to report; the planners prove that encoding a
    /// string-to-string manifest never fails, so they never return it.
    SerializationFailure { cause: String },
    /// Creating the job directory failed.
    DirectoryCreateFailed { cause: String },
    /// Copying one source asset failed; names the asset.
    AssetCopyFailed { asset_name: String, cause: String },
    /// Writing the manifest file failed.
    ManifestWriteFailed { cause: String },
    /// Writing the sentinel file failed.
    SentinelWriteFailed { cause: String },
    /// Writing the image job file failed.
    WriteFailed { cause: String },
}

/// The error that reports a failure of the given planned action, with
/// the cause handed back by the filesystem.
pub fn action_failure_error(action: &FsAction, cause: String) -> (e: DispatchError)
    ensures
        action matches FsAction::CreateDir { .. } ==> (e matches DispatchError::DirectoryCreateFailed {
            cause: c,
        } && c@ == cause@),
        action matches FsAction::CopyAsset { asset_name, .. } ==> (e
            matches DispatchError::AssetCopyFailed { asset_name: n, cause: c } && n@ == asset_name@
            && c@ == cause@),
        action matches FsAction::WriteManifest { .. } ==> (e
            matches DispatchError::ManifestWriteFailed { cause: c } && c@ == cause@),
        action matches FsAction::WriteSentinel { .. } ==> (e
            matches DispatchError::SentinelWriteFailed { cause: c } && c@ == cause@),
        action matches FsAction::WriteJobFile { .. } ==> (e matches DispatchError::WriteFailed {
            cause: c,
        } && c@ == cause@),
{
    match action {
        FsAction::CreateDir { .. } => DispatchError::DirectoryCreateFailed { cause },
        FsAction::CopyAsset { asset_name, .. } => DispatchError::AssetCopyFailed {
            asset_name: asset_name.clone(),
            cause,
        },
        FsAction::WriteManifest { .. } => DispatchError::ManifestWriteFailed { cause },
        FsAction::WriteSentinel { .. } => DispatchError::SentinelWriteFailed { cause },
        FsAction::WriteJobFile { .. } => DispatchError::WriteFailed { cause },
    }
}

/// The plan of an image dispatch: exactly one file write, placing the
/// prompt verbatim at the job's path in the worker's image inbox.
pub open spec fn is_image_plan(
    plan: Seq<FsAction>,
    root: Seq<char>,
    worker_id: Seq<char>,
    job_id: Seq<char>,
    prompt: Seq<char>,
) -> bool {
    &&& plan.len() == 1
    &&& plan[0] matches FsAction::WriteJobFile { path, content }
    &&& action_target(plan[0]) == image_job_file_spec(root, worker_id, job_id)
    &&& (plan[0] matches FsAction::WriteJobFile { path, content } ==> content@ == prompt)
}

/// The plan of a video dispatch with the given manifest text: create
/// the job directory, copy each asset in task order, write the
/// manifest, and write the sentinel last.
pub open spec fn is_video_plan(
    plan: Seq<FsAction>,
    root: Seq<char>,
    worker_id: Seq<char>,
    job_id: Seq<char>,
    tasks: Seq<VideoTask>,
    json: Seq<char>,
) -> bool {
    let dir = video_job_dir_spec(root, worker_id, job_id);
    &&& plan.len() == tasks.len() + 3
    &&& (plan[0] matches FsAction::CreateDir { path } && path@ == dir)
    &&& (forall|i: int|
        1 <= i <= tasks.len() ==> (#[trigger] plan[i] matches FsAction::CopyAsset {
            source,
            dest,
            asset_name,
        } && source@ == tasks[i - 1].path@ && asset_name@ == tasks[i - 1].name@ && dest@
            == job_entry_spec(dir, tasks[i - 1].name@)))
    &&& (plan[plan.len() - 2] matches FsAction::WriteManifest { path, content } && path@
        == manifest_file_spec(root, worker_id, job_id) && content@ == json)
    &&& (plan[plan.len() - 1] matches FsAction::WriteSentinel { path } && path@
        == ready_file_spec(root, worker_id, job_id))
}

/// All identifiers of a video job are usable as path segments.
pub open spec fn video_inputs_valid(
    worker_id: Seq<char>,
    job_id: Seq<char>,
    tasks: Seq<VideoTask>,
) -> bool {
    &&& valid_segment(worker_id)
    &&& valid_segment(job_id)
    &&& forall|i: int| 0 <= i < tasks.len() ==> valid_segment(#[trigger] tasks[i].name@)
}

/// Plans an image dispatch.  The caller reports whether the worker's
/// image inbox directory exists; on success the plan is the single
/// write of the prompt, and on failure nothing is to be written.
pub fn plan_image_dispatch(
    root: &str,
    worker_id: &str,
    job_id: &str,
    prompt: &str,
    inbox_exists: bool,
) -> (r: Result<Vec<FsAction>, DispatchError>)
    ensures
        r is Ok <==> valid_segment(worker_id@) && valid_segment(job_id@) && inbox_exists,
        r matches Ok(plan) ==> is_image_plan(plan@, root@, worker_id@, job_id@, prompt@),
        !valid_segment(worker_id@) ==> (r matches Err(DispatchError::InvalidPathSegment { segment })
            && segment@ == worker_id@),
        valid_segment(worker_id@) && !valid_segment(job_id@) ==> (r matches Err(
            DispatchError::InvalidPathSegment { segment },
        ) && segment@ == job_id@),
        valid_segment(worker_id@) && valid_segment(job_id@) && !inbox_exists ==> (r matches Err(
            DispatchError::MissingPrerequisiteDirectory { worker_id: w },
        ) && w@ == worker_id@),
{
    if !check_segment(worker_id) {
        return Err(DispatchError::InvalidPathSegment { segment: worker_id.to_owned() });
    }
    if !check_segment(job_id) {
        return Err(DispatchError::InvalidPathSegment { segment: job_id.to_owned() });
    }
    if !inbox_exists {
        return Err(DispatchError::MissingPrerequisiteDirectory { worker_id: worker_id.to_owned() });
    }
    let path = image_job_file(root, worker_id, job_id);
    let mut plan: Vec<FsAction> = Vec::new();
    plan.push(FsAction::WriteJobFile { path, content: prompt.to_owned() });
    Ok(plan)
}

/// Assembles the action sequence of a video dispatch from the already
/// serialized manifest text: job directory first, then the asset
/// copies in task order, then the manifest, then the sentinel.
pub fn assemble_video_plan(
    root: &str,
    worker_id: &str,
    job_id: &str,
    tasks: &Vec<VideoTask>,
    manifest_json: String,
) -> (plan: Vec<FsAction>)
    ensures
        is_video_plan(plan@, root@, worker_id@, job_id@, tasks@, manifest_json@),
{
    let dir = video_job_dir(root, worker_id, job_id);
    let mut plan: Vec<FsAction> = Vec::new();
    plan.push(FsAction::CreateDir { path: dir.clone() });
    let mut i: usize = 0;
    while i < tasks.len()
        invariant
            0 <= i <= tasks@.len(),
            plan@.len() == i + 1,
            dir@ == video_job_dir_spec(root@, worker_id@, job_id@),
            plan@[0] matches FsAction::CreateDir { path } && path@ == dir@,
            forall|k: int|
                1 <= k <= i ==> (#[trigger] plan@[k] matches FsAction::CopyAsset {
                    source,
                    dest,
                    asset_name,
                } && source@ == tasks@[k - 1].path@ && asset_name@ == tasks@[k - 1].name@ && dest@
                    == job_entry_spec(dir@, tasks@[k - 1].name@)),
        decreases tasks@.len() - i,
    {
        let dest = job_entry(dir.as_str(), tasks[i].name.as_str());
        plan.push(
            FsAction::CopyAsset {
                source: tasks[i].path.clone(),
                dest,
                asset_name: tasks[i].name.clone(),
            },
        );
        i = i + 1;
    }
    plan.push(
        FsAction::WriteManifest {
            path: manifest_file(root, worker_id, job_id),
            content: manifest_json,
        },
    );
    plan.push(FsAction::WriteSentinel { path: ready_file(root, worker_id, job_id) });
    plan
}

/// Plans a video dispatch.  Identifiers are validated, the caller
/// reports whether the worker's video inbox exists, the manifest is
/// serialized, and the plan is assembled with the sentinel last.
pub fn plan_video_dispatch(
    root: &str,
    worker_id: &str,
    job_id: &str,
    tasks: &Vec<VideoTask>,
    inbox_exists: bool,
) -> (r: Result<Vec<FsAction>, DispatchError>)
    ensures
        r matches Ok(plan) ==> is_video_plan(
            plan@,
            root@,
            worker_id@,
            job_id@,
            tasks@,
            json_pretty_of(manifest_of(tasks@)),
        ),
        r is Ok <==> video_inputs_valid(worker_id@, job_id@, tasks@) && inbox_exists,
        !valid_segment(worker_id@) ==> (r matches Err(DispatchError::InvalidPathSegment { segment })
            && segment@ == worker_id@),
        valid_segment(worker_id@) && !valid_segment(job_id@) ==> (r matches Err(
            DispatchError::InvalidPathSegment { segment },
        ) && segment@ == job_id@),
        forall|i: int|
            valid_segment(worker_id@) && valid_segment(job_id@) && 0 <= i < tasks@.len()
                && !valid_segment(#[trigger] tasks@[i].name@) && (forall|j: int|
                0 <= j < i ==> valid_segment(#[trigger] tasks@[j].name@)) ==> (r matches Err(
                DispatchError::InvalidPathSegment { segment },
            ) && segment@ == tasks@[i].name@),
        video_inputs_valid(worker_id@, job_id@, tasks@) && !inbox_exists ==> (r matches Err(
            DispatchError::MissingPrerequisiteDirectory { worker_id: w },
        ) && w@ == worker_id@),
{
    if !check_segment(worker_id) {
        return Err(DispatchError::InvalidPathSegment { segment: worker_id.to_owned() });
    }
    if !check_segment(job_id) {
        return Err(DispatchError::InvalidPathSegment { segment: job_id.to_owned() });
    }
    let mut i: usize = 0;
    while i < tasks.len()
        invariant
            0 <= i <= tasks@.len(),
            valid_segment(worker_id@),
            valid_segment(job_id@),
            forall|j: int| 0 <= j < i ==> valid_segment(#[trigger] tasks@[j].name@),
        decreases tasks@.len() - i,
    {
        if !check_segment(tasks[i].name.as_str()) {
            return Err(DispatchError::InvalidPathSegment { segment: tasks[i].name.clone() });
        }
        i = i + 1;
    }
    if !inbox_exists {
        return Err(DispatchError::MissingPrerequisiteDirectory { worker_id: worker_id.to_owned() });
    }
    let json = build_manifest_json(tasks);
    Ok(assemble_video_plan(root, worker_id, job_id, tasks, json))
}

/// Appending the same sequence to the same front gives equal backs.
pub proof fn lemma_append_cancel(a: Seq<char>, x: Seq<char>, y: Seq<char>)
    requires
        a + x == a + y,
    ensures
        x == y,
{
    assert((a + x).len() == a.len() + x.len());
    assert((a + y).len() == a.len() + y.len());
    assert(x.len() == y.len());
    assert forall|k: int| 0 <= k < x.len() implies x[k] == y[k] by {
        assert((a + x)[a.len() + k] == x[k]);
        assert((a + y)[a.len() + k] == y[k]);
    }
    assert(x =~= y);
}

/// The sentinel is written last: in a video plan whose tasks do not use
/// the reserved asset name `READY`, no action before the final one
/// creates or writes the sentinel path, so the sentinel cannot exist
/// before every asset copy and the manifest write have completed.
pub proof fn lemma_sentinel_written_last(
    plan: Seq<FsAction>,
    root: Seq<char>,
    worker_id: Seq<char>,
    job_id: Seq<char>,
    tasks: Seq<VideoTask>,
    json: Seq<char>,
)
    requires
        is_video_plan(plan, root, worker_id, job_id, tasks, json),
        forall|i: int| 0 <= i < tasks.len() ==> #[trigger] tasks[i].name@ != "READY"@,
    ensures
        plan.len() == tasks.len() + 3,
        plan[plan.len() - 1] matches FsAction::WriteSentinel { path } && path@ == ready_file_spec(
            root,
            worker_id,
            job_id,
        ),
        forall|i: int|
            0 <= i < plan.len() - 1 ==> action_target(#[trigger] plan[i]) != ready_file_spec(
                root,
                worker_id,
                job_id,
            ),
{
    let dir = video_job_dir_spec(root, worker_id, job_id);
    let ready = ready_file_spec(root, worker_id, job_id);
    reveal_strlit("/READY");
    reveal_strlit("/");
    reveal_strlit("READY");
    reveal_strlit("/prompts.json");
    assert("/READY"@ =~= "/"@ + "READY"@);
    assert(ready.len() == dir.len() + 6);
    assert forall|i: int| 0 <= i < plan.len() - 1 implies action_target(#[trigger] plan[i])
        != ready by {
        if i == 0 {
            assert(action_target(plan[0]) == dir);
        } else if i <= tasks.len() {
            let name = tasks[i - 1].name@;
            assert(action_target(plan[i]) == job_entry_spec(dir, name));
            if name.len() == 5 {
                if job_entry_spec(dir, name) == ready {
                    assert(dir + "/"@ + name =~= (dir + "/"@) + name);
                    assert(ready =~= (dir + "/"@) + "READY"@);
                    lemma_append_cancel(dir + "/"@, name, "READY"@);
                    assert(false);
                }
            } else {
                assert(job_entry_spec(dir, name).len() == dir.len() + 1 + name.len());
            }
        } else {
            assert(action_target(plan[i]) == manifest_file_spec(root, worker_id, job_id));
            assert(manifest_file_spec(root, worker_id, job_id).len() == dir.len() + 13);
        }
    }
}

/// Dispatching the same image job twice is a no-op difference: the two
/// plans perform the same single write, overwriting the file with
/// identical bytes.
pub proof fn lemma_image_dispatch_idempotent(
    plan1: Seq<FsAction>,
    plan2: Seq<FsAction>,
    root: Seq<char>,
    worker_id: Seq<char>,
    job_id: Seq<char>,
    prompt: Seq<char>,
)
    requires
        is_image_plan(plan1, root, worker_id, job_id, prompt),
        is_image_plan(plan2, root, worker_id, job_id, prompt),
    ensures
        plan1.len() == plan2.len(),
        forall|i: int| 0 <= i < plan1.len() ==> actions_match(#[trigger] plan1[i], plan2[i]),
{
    assert(actions_match(plan1[0], plan2[0]));
}

/// The decimal digit characters.
pub open spec fn digit_char(d: int) -> char {
    if d == 0 {
        '0'
    } else if d == 1 {
        '1'
    } else if d == 2 {
        '2'
    } else if d == 3 {
        '3'
    } else if d == 4 {
        '4'
    } else if d == 5 {
        '5'
    } else if d == 6 {
        '6'
    } else if d == 7 {
        '7'
    } else if d == 8 {
        '8'
    } else {
        '9'
    }
}

/// The decimal digits of `n`, most significant first, no leading zeros
/// except for zero itself.
pub open spec fn dec_seq(n: int) -> Seq<char>
    decreases n,
{
    if n < 10 {
        seq![digit_char(n)]
    } else {
        dec_seq(n / 10).push(digit_char(n % 10))
    }
}

/// Renders `n` in decimal.
pub fn dec_string(n: u64) -> (r: String)
    ensures
        r@ == dec_seq(n as int),
    decreases n,
{
    let d = n % 10;
    let ds: &str = if d == 0 {
        "0"
    } else if d == 1 {
        "1"
    } else if d == 2 {
        "2"
    } else if d == 3 {
        "3"
    } else if d == 4 {
        "4"
    } else if d == 5 {
        "5"
    } else if d == 6 {
        "6"
    } else if d == 7 {
        "7"
    } else if d == 8 {
        "8"
    } else {
        "9"
    };
    proof {
        reveal_strlit("0");
        reveal_strlit("1");
        reveal_strlit("2");
        reveal_strlit("3");
        reveal_strlit("4");
        reveal_strlit("5");
        reveal_strlit("6");
        reveal_strlit("7");
        reveal_strlit("8");
        reveal_strlit("9");
        assert(ds@ =~= seq![digit_char(d as int)]);
    }
    if n < 10 {
        ds.to_owned()
    } else {
        let mut s = dec_string(n / 10);
        s.append(ds);
        proof {
            assert(s@ =~= dec_seq(n as int));
        }
        s
    }
}

/// The confirmation reported for a dispatched image job.
pub open spec fn image_confirmation_spec(job_id: Seq<char>) -> Seq<char> {
    "Image Job "@ + job_id + " dispatched!"@
}

/// Builds the confirmation message of an image dispatch.
pub fn image_confirmation(job_id: &str) -> (r: String)
    ensures
        r@ == image_confirmation_spec(job_id@),
{
    let mut s = "Image Job ".to_owned();
    s.append(job_id);
    s.append(" dispatched!");
    s
}

/// The confirmation reported for a dispatched video job, naming the
/// number of assets placed in the job directory.
pub open spec fn video_confirmation_spec(job_id: Seq<char>, count: int) -> Seq<char> {
    "Video Job "@ + job_id + " dispatched with "@ + dec_seq(count) + " assets!"@
}

/// Builds the confirmation message of a video dispatch.
pub fn video_confirmation(job_id: &str, count: u64) -> (r: String)
    ensures
        r@ == video_confirmation_spec(job_id@, count as int),
{
    let mut s = "Video Job ".to_owned();
    s.append(job_id);
    s.append(" dispatched with ");
    let c = dec_string(count);
    s.append(c.as_str());
    s.append(" assets!");
    s
}

} // verus!
