use renderfleet::dispatch::{
    action_failure_error, image_confirmation, plan_image_dispatch, plan_video_dispatch,
    video_confirmation, DispatchError, FsAction,
};
use renderfleet::manifest::VideoTask;
use renderfleet::paths::{
    check_segment, heartbeats_dir, image_inbox_dir, image_job_file, manifest_file, outbox_dir,
    outbox_job_dir, ready_file, video_inbox_dir, video_job_dir,
};
use renderfleet::{get_sync_root, SyncConfig};

fn task(path: &str, name: &str, prompt: &str) -> VideoTask {
    VideoTask { path: path.to_string(), name: name.to_string(), prompt: prompt.to_string() }
}

#[test]
fn sync_root_is_the_configured_value() {
    let config = SyncConfig::new("/srv/renderfleet/sync".to_string());
    assert_eq!(get_sync_root(&config), "/srv/renderfleet/sync");
}

#[test]
fn path_layout_matches_the_directory_contract() {
    assert_eq!(image_inbox_dir("/r", "w1"), "/r/image/assigned/w1/inbox");
    assert_eq!(image_job_file("/r", "w1", "j1"), "/r/image/assigned/w1/inbox/j1.txt");
    assert_eq!(video_inbox_dir("/r", "w1"), "/r/video/assigned/w1/inbox");
    assert_eq!(video_job_dir("/r", "w1", "j1"), "/r/video/assigned/w1/inbox/j1");
    assert_eq!(manifest_file("/r", "w1", "j1"), "/r/video/assigned/w1/inbox/j1/prompts.json");
    assert_eq!(ready_file("/r", "w1", "j1"), "/r/video/assigned/w1/inbox/j1/READY");
    assert_eq!(heartbeats_dir("/r"), "/r/heartbeats");
    assert_eq!(outbox_dir("/r"), "/r/image/outbox");
    assert_eq!(outbox_job_dir("/r", "batch"), "/r/image/outbox/batch");
}

#[test]
fn segment_validation_rejects_traversal() {
    assert!(check_segment("worker-01"));
    assert!(check_segment("."));
    assert!(!check_segment(""));
    assert!(!check_segment(".."));
    assert!(!check_segment("a/b"));
    assert!(!check_segment("a\\b"));
    assert!(!check_segment("/"));
}

#[test]
fn image_dispatch_writes_exactly_one_file_with_the_prompt() {
    let r = plan_image_dispatch("/r", "w1", "j1", "a castle at dawn", true);
    let plan = r.expect("dispatch should be planned");
    assert_eq!(plan.len(), 1);
    match &plan[0] {
        FsAction::WriteJobFile { path, content } => {
            assert_eq!(path.as_str(), "/r/image/assigned/w1/inbox/j1.txt");
            assert_eq!(content.as_str(), "a castle at dawn");
        }
        _ => panic!("expected the single action to write the job file"),
    }
}

#[test]
fn image_dispatch_fails_without_inbox_and_writes_nothing() {
    let r = plan_image_dispatch("/r", "w1", "j1", "p", false);
    match r {
        Err(DispatchError::MissingPrerequisiteDirectory { worker_id }) => {
            assert_eq!(worker_id, "w1");
        }
        _ => panic!("expected the missing-inbox error"),
    }
}

#[test]
fn video_dispatch_fails_without_inbox_and_writes_nothing() {
    let tasks = vec![task("/tmp/a.mp4", "a.mp4", "wide shot")];
    let r = plan_video_dispatch("/r", "w1", "j1", &tasks, false);
    match r {
        Err(DispatchError::MissingPrerequisiteDirectory { worker_id }) => {
            assert_eq!(worker_id, "w1");
        }
        _ => panic!("expected the missing-inbox error"),
    }
}

#[test]
fn dispatch_rejects_invalid_identifiers() {
    match plan_image_dispatch("/r", "w/1", "j1", "p", true) {
        Err(DispatchError::InvalidPathSegment { segment }) => assert_eq!(segment, "w/1"),
        _ => panic!("expected the invalid-segment error for the worker"),
    }
    match plan_image_dispatch("/r", "w1", "..", "p", true) {
        Err(DispatchError::InvalidPathSegment { segment }) => assert_eq!(segment, ".."),
        _ => panic!("expected the invalid-segment error for the job"),
    }
    let tasks = vec![task("/tmp/a", "ok.mp4", "p"), task("/tmp/b", "bad/name", "p")];
    match plan_video_dispatch("/r", "w1", "j1", &tasks, true) {
        Err(DispatchError::InvalidPathSegment { segment }) => assert_eq!(segment, "bad/name"),
        _ => panic!("expected the invalid-segment error for the asset"),
    }
}

#[test]
fn video_dispatch_orders_copies_manifest_sentinel() {
    let tasks = vec![
        task("/assets/one.mp4", "one.mp4", "slow pan"),
        task("/assets/two.mp4", "two.mp4", "zoom in"),
    ];
    let plan = plan_video_dispatch("/r", "w1", "j1", &tasks, true).expect("planned");
    assert_eq!(plan.len(), 5);
    match &plan[0] {
        FsAction::CreateDir { path } => assert_eq!(path.as_str(), "/r/video/assigned/w1/inbox/j1"),
        _ => panic!("expected the job directory first"),
    }
    match &plan[1] {
        FsAction::CopyAsset { source, dest, asset_name } => {
            assert_eq!(source.as_str(), "/assets/one.mp4");
            assert_eq!(dest.as_str(), "/r/video/assigned/w1/inbox/j1/one.mp4");
            assert_eq!(asset_name.as_str(), "one.mp4");
        }
        _ => panic!("expected the first copy"),
    }
    match &plan[2] {
        FsAction::CopyAsset { source, .. } => assert_eq!(source.as_str(), "/assets/two.mp4"),
        _ => panic!("expected the second copy"),
    }
    match &plan[3] {
        FsAction::WriteManifest { path, .. } => {
            assert_eq!(path.as_str(), "/r/video/assigned/w1/inbox/j1/prompts.json");
        }
        _ => panic!("expected the manifest before the sentinel"),
    }
    match &plan[4] {
        FsAction::WriteSentinel { path } => {
            assert_eq!(path.as_str(), "/r/video/assigned/w1/inbox/j1/READY");
        }
        _ => panic!("expected the sentinel last"),
    }
}

#[test]
fn sentinel_never_targeted_before_the_last_action() {
    let tasks = vec![
        task("/assets/one.mp4", "one.mp4", "slow pan"),
        task("/assets/two.mp4", "two.mp4", "zoom in"),
        task("/assets/three.mp4", "three.mp4", "hold"),
    ];
    let plan = plan_video_dispatch("/r", "w9", "night", &tasks, true).expect("planned");
    let sentinel = ready_file("/r", "w9", "night");
    for action in plan.iter().take(plan.len() - 1) {
        let target = match action {
            FsAction::CreateDir { path } => path,
            FsAction::CopyAsset { dest, .. } => dest,
            FsAction::WriteManifest { path, .. } => path,
            FsAction::WriteSentinel { path } => path,
            FsAction::WriteJobFile { path, .. } => path,
        };
        assert_ne!(target, &sentinel);
    }
}

#[test]
fn manifest_keeps_the_last_prompt_per_distinct_name() {
    let tasks = vec![
        task("/assets/a.mp4", "a.mp4", "first prompt"),
        task("/assets/b.mp4", "b.mp4", "other prompt"),
        task("/assets/a2.mp4", "a.mp4", "second prompt"),
    ];
    let plan = plan_video_dispatch("/r", "w1", "j1", &tasks, true).expect("planned");
    let manifest = plan
        .iter()
        .find_map(|a| match a {
            FsAction::WriteManifest { content, .. } => Some(content.clone()),
            _ => None,
        })
        .expect("the plan writes a manifest");
    let value: serde_json::Value = serde_json::from_str(&manifest).expect("valid JSON");
    let object = value.as_object().expect("a JSON object");
    assert_eq!(object.len(), 2);
    assert_eq!(object["a.mp4"], serde_json::Value::String("second prompt".to_string()));
    assert_eq!(object["b.mp4"], serde_json::Value::String("other prompt".to_string()));
}

#[test]
fn video_dispatch_without_tasks_still_writes_manifest_and_sentinel() {
    let plan = plan_video_dispatch("/r", "w1", "empty", &Vec::new(), true).expect("planned");
    assert_eq!(plan.len(), 3);
    match &plan[1] {
        FsAction::WriteManifest { content, .. } => {
            let value: serde_json::Value = serde_json::from_str(content).expect("valid JSON");
            assert_eq!(value.as_object().expect("a JSON object").len(), 0);
        }
        _ => panic!("expected the manifest"),
    }
    match &plan[2] {
        FsAction::WriteSentinel { path } => {
            assert_eq!(path.as_str(), "/r/video/assigned/w1/inbox/empty/READY");
        }
        _ => panic!("expected the sentinel last"),
    }
}

#[test]
fn repeated_image_dispatch_is_identical() {
    let first = plan_image_dispatch("/r", "w1", "j1", "same prompt", true).expect("planned");
    let second = plan_image_dispatch("/r", "w1", "j1", "same prompt", true).expect("planned");
    assert_eq!(first.len(), second.len());
    match (&first[0], &second[0]) {
        (
            FsAction::WriteJobFile { path: p1, content: c1 },
            FsAction::WriteJobFile { path: p2, content: c2 },
        ) => {
            assert_eq!(p1, p2);
            assert_eq!(c1, c2);
        }
        _ => panic!("expected both plans to write the job file"),
    }
}

#[test]
fn action_failures_name_the_failing_step() {
    let copy = FsAction::CopyAsset {
        source: "/assets/a.mp4".to_string(),
        dest: "/r/video/assigned/w1/inbox/j1/a.mp4".to_string(),
        asset_name: "a.mp4".to_string(),
    };
    match action_failure_error(&copy, "disk full".to_string()) {
        DispatchError::AssetCopyFailed { asset_name, cause } => {
            assert_eq!(asset_name, "a.mp4");
            assert_eq!(cause, "disk full");
        }
        _ => panic!("expected the copy failure to name the asset"),
    }
    let dir = FsAction::CreateDir { path: "/r/x".to_string() };
    match action_failure_error(&dir, "denied".to_string()) {
        DispatchError::DirectoryCreateFailed { cause } => assert_eq!(cause, "denied"),
        _ => panic!("expected the directory failure"),
    }
    let sentinel = FsAction::WriteSentinel { path: "/r/x/READY".to_string() };
    match action_failure_error(&sentinel, "oops".to_string()) {
        DispatchError::SentinelWriteFailed { cause } => assert_eq!(cause, "oops"),
        _ => panic!("expected the sentinel failure"),
    }
    let manifest = FsAction::WriteManifest {
        path: "/r/x/prompts.json".to_string(),
        content: "{}".to_string(),
    };
    match action_failure_error(&manifest, "read-only".to_string()) {
        DispatchError::ManifestWriteFailed { cause } => assert_eq!(cause, "read-only"),
        _ => panic!("expected the manifest failure"),
    }
    let job_file = FsAction::WriteJobFile {
        path: "/r/x/j.txt".to_string(),
        content: "p".to_string(),
    };
    match action_failure_error(&job_file, "no space".to_string()) {
        DispatchError::WriteFailed { cause } => assert_eq!(cause, "no space"),
        _ => panic!("expected the write failure"),
    }
}

#[test]
fn confirmations_name_job_and_asset_count() {
    assert_eq!(image_confirmation("j1"), "Image Job j1 dispatched!");
    assert_eq!(video_confirmation("j1", 0), "Video Job j1 dispatched with 0 assets!");
    assert_eq!(video_confirmation("j1", 3), "Video Job j1 dispatched with 3 assets!");
    assert_eq!(
        video_confirmation("night", 1234567890),
        "Video Job night dispatched with 1234567890 assets!"
    );
}
