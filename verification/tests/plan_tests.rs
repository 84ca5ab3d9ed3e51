use account_switcher::plan::{
    managed_leaf, managed_path, outgoing_to_save, restore_plan, save_plan, FsStep, PathKind,
};
use account_switcher::prefs::{fetch_result, profile_stem, store_result};
use account_switcher::errors::ApiError;

#[test]
fn managed_paths_are_the_fixed_set() {
    assert_eq!(managed_path(0), "Config");
    assert_eq!(managed_path(1), "Data/RiotGamesPrivateSettings.yaml");
    assert_eq!(managed_path(2), "Sessions");
    assert_eq!(managed_leaf(0), "Config");
    assert_eq!(managed_leaf(1), "RiotGamesPrivateSettings.yaml");
    assert_eq!(managed_leaf(2), "Sessions");
}

#[test]
fn save_plan_skips_absent_and_replaces_dirs() {
    let live = vec![PathKind::Dir, PathKind::File, PathKind::Missing];
    let dest_exists = vec![true, false, false];
    let plan = save_plan(&live, &dest_exists);
    assert_eq!(
        plan,
        vec![
            FsStep::EnsureAccountDir,
            FsStep::RemoveSnapshotLeafDir(0),
            FsStep::CopyLiveDirToSnapshot(0),
            FsStep::CopyLiveFileToSnapshot(1),
            FsStep::WriteMarker,
        ]
    );
}

#[test]
fn save_plan_copies_fresh_dir_without_removal() {
    let live = vec![PathKind::Dir, PathKind::Missing, PathKind::Dir];
    let dest_exists = vec![false, false, true];
    let plan = save_plan(&live, &dest_exists);
    assert_eq!(
        plan,
        vec![
            FsStep::EnsureAccountDir,
            FsStep::CopyLiveDirToSnapshot(0),
            FsStep::RemoveSnapshotLeafDir(2),
            FsStep::CopyLiveDirToSnapshot(2),
            FsStep::WriteMarker,
        ]
    );
}

#[test]
fn restore_plan_removes_then_copies_and_skips_missing_leaves() {
    let snap = vec![PathKind::Dir, PathKind::File, PathKind::Missing];
    let live = vec![PathKind::Dir, PathKind::Missing, PathKind::File];
    let parent_missing = vec![false, true, false];
    let plan = restore_plan(&snap, &live, &parent_missing);
    assert_eq!(
        plan,
        vec![
            FsStep::RemoveLiveDir(0),
            FsStep::CopySnapshotDirToLive(0),
            FsStep::EnsureLiveParent(1),
            FsStep::CopySnapshotFileToLive(1),
            // Index 2: the snapshot lacks the leaf, the live file is untouched.
        ]
    );
}

#[test]
fn restore_plan_replaces_live_file_with_snapshot_file() {
    let snap = vec![PathKind::Missing, PathKind::File, PathKind::Missing];
    let live = vec![PathKind::Missing, PathKind::File, PathKind::Missing];
    let parent_missing = vec![false, false, false];
    let plan = restore_plan(&snap, &live, &parent_missing);
    assert_eq!(plan, vec![FsStep::RemoveLiveFile(1), FsStep::CopySnapshotFileToLive(1)]);
}

#[test]
fn outgoing_save_decision_matches_switch_protocol() {
    let target = String::from("B");
    assert_eq!(outgoing_to_save(&None, &target), None);
    assert_eq!(outgoing_to_save(&Some(String::from("")), &target), None);
    assert_eq!(outgoing_to_save(&Some(String::from("B")), &target), None);
    assert_eq!(outgoing_to_save(&Some(String::from("A")), &target), Some(String::from("A")));
}

#[test]
fn fetch_result_classifies_responses() {
    let blob = fetch_result(200, String::from("{\"k\":[1,2]}")).unwrap();
    assert_eq!(blob, "{\"k\":[1,2]}");

    match fetch_result(502, String::from("bad gateway")) {
        Err(ApiError::ApiErrorResponse { status, text }) => {
            assert_eq!(status, 502);
            assert_eq!(text, "bad gateway");
        }
        _ => panic!("expected ApiErrorResponse"),
    }

    assert!(matches!(
        fetch_result(200, String::from("not json at all {")),
        Err(ApiError::EncodingFailure(_))
    ));
}

#[test]
fn store_result_returns_the_numeric_success_status() {
    assert_eq!(store_result(200, String::new()).unwrap(), 200);
    assert_eq!(store_result(204, String::new()).unwrap(), 204);
    match store_result(401, String::from("no")) {
        Err(ApiError::ApiErrorResponse { status, text }) => {
            assert_eq!(status, 401);
            assert_eq!(text, "no");
        }
        _ => panic!("expected ApiErrorResponse"),
    }
}

#[test]
fn profile_stems_come_from_json_files_only() {
    assert_eq!(profile_stem("alice.json"), Some(String::from("alice")));
    assert_eq!(profile_stem("a.b.json"), Some(String::from("a.b")));
    assert_eq!(profile_stem("notes.txt"), None);
    assert_eq!(profile_stem(".json"), None);
    assert_eq!(profile_stem("json"), None);
}
