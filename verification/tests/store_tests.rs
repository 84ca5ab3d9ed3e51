use account_switcher::errors::ApiError;
use account_switcher::store::{LiveInstallation, SnapshotStore};

fn live(config: Option<&str>, settings: Option<&str>, sessions: Option<&str>) -> LiveInstallation {
    LiveInstallation {
        leaves: vec![
            config.map(|s| s.as_bytes().to_vec()),
            settings.map(|s| s.as_bytes().to_vec()),
            sessions.map(|s| s.as_bytes().to_vec()),
        ],
    }
}

fn empty_store() -> SnapshotStore {
    SnapshotStore { accounts: Vec::new(), marker: None }
}

fn leaves_of(l: &LiveInstallation) -> Vec<Option<Vec<u8>>> {
    l.leaves.clone()
}

#[test]
fn save_then_restore_round_trips_exactly() {
    // Only Config and the settings file are present live; Sessions is absent.
    let mut store = empty_store();
    let at_save = live(Some("cfg-a"), Some("settings-a"), None);
    store.save(&String::from("A"), &at_save);

    // Cleared installation: every managed path absent.
    let mut cleared = live(None, None, None);
    store.restore(&String::from("A"), &mut cleared).unwrap();

    assert_eq!(leaves_of(&cleared), leaves_of(&at_save));
    // Sessions stays absent after the round trip.
    assert_eq!(cleared.leaves[2], None);
}

#[test]
fn restore_of_unknown_account_fails_and_mutates_nothing() {
    let store = empty_store();
    let mut installation = live(Some("cfg"), None, Some("sess"));
    let before = leaves_of(&installation);
    let r = store.restore(&String::from("ghost"), &mut installation);
    match r {
        Err(ApiError::AccountNotFound(name)) => assert_eq!(name, "ghost"),
        _ => panic!("expected AccountNotFound"),
    }
    assert_eq!(leaves_of(&installation), before);
}

#[test]
fn switch_saves_outgoing_restores_target_and_moves_marker() {
    let mut store = empty_store();

    // B's snapshot holds all three managed paths.
    let b_state = live(Some("cfg-b"), Some("set-b"), Some("sess-b"));
    store.save(&String::from("B"), &b_state);

    // A was saved once, then its live state moved on; marker says A is live.
    let a_old = live(Some("cfg-a-old"), Some("set-a-old"), None);
    store.save(&String::from("A"), &a_old);
    let mut installation = live(Some("cfg-a-new"), Some("set-a-new"), None);

    let saved = store.switch(&String::from("B"), &mut installation).unwrap();

    // The outgoing account A was saved with its pre-switch live state.
    assert_eq!(saved, Some(String::from("A")));
    let listed = store.list();
    assert!(listed.contains(&String::from("A")));
    let mut probe = live(None, None, None);
    store.restore(&String::from("A"), &mut probe).unwrap();
    assert_eq!(probe.leaves[0], Some(b"cfg-a-new".to_vec()));
    assert_eq!(probe.leaves[1], Some(b"set-a-new".to_vec()));
    assert_eq!(probe.leaves[2], None);

    // The live installation now equals B's snapshot, and the marker moved.
    assert_eq!(leaves_of(&installation), leaves_of(&b_state));
    assert_eq!(store.marker, Some(String::from("B")));
}

#[test]
fn switch_to_marker_account_keeps_marker_and_recopies() {
    let mut store = empty_store();
    let a_state = live(Some("cfg-a"), None, None);
    store.save(&String::from("A"), &a_state);
    assert_eq!(store.marker, Some(String::from("A")));

    // Live drifted; switching to A itself does not save the drift.
    let mut installation = live(Some("cfg-a-drifted"), None, None);
    let saved = store.switch(&String::from("A"), &mut installation).unwrap();

    assert_eq!(saved, None);
    assert_eq!(store.marker, Some(String::from("A")));
    // Files are still re-copied from A's snapshot: copy is not skip-if-same.
    assert_eq!(installation.leaves[0], Some(b"cfg-a".to_vec()));
}

#[test]
fn empty_marker_causes_no_outgoing_save() {
    let mut store = empty_store();
    store.save(&String::from("B"), &live(Some("cfg-b"), None, None));
    store.marker = Some(String::new());

    let mut installation = live(Some("cfg-x"), None, None);
    let saved = store.switch(&String::from("B"), &mut installation).unwrap();

    assert_eq!(saved, None);
    assert_eq!(store.marker, Some(String::from("B")));
    assert_eq!(installation.leaves[0], Some(b"cfg-b".to_vec()));
}

#[test]
fn switch_to_unknown_account_fails_early() {
    let mut store = empty_store();
    store.save(&String::from("A"), &live(Some("cfg"), None, None));
    let mut installation = live(Some("cfg"), None, None);
    let r = store.switch(&String::from("nobody"), &mut installation);
    assert!(matches!(r, Err(ApiError::AccountNotFound(_))));
    // Nothing moved: marker still A, live untouched.
    assert_eq!(store.marker, Some(String::from("A")));
    assert_eq!(installation.leaves[0], Some(b"cfg".to_vec()));
}

#[test]
fn delete_removes_account_from_listing_and_restoring() {
    let mut store = empty_store();
    store.save(&String::from("A"), &live(Some("a"), None, None));
    store.save(&String::from("B"), &live(Some("b"), None, None));

    store.delete(&String::from("A")).unwrap();

    let listed = store.list();
    assert!(!listed.contains(&String::from("A")));
    assert!(listed.contains(&String::from("B")));

    let mut installation = live(None, None, None);
    assert!(matches!(
        store.restore(&String::from("A"), &mut installation),
        Err(ApiError::AccountNotFound(_))
    ));
}

#[test]
fn delete_of_unknown_account_fails() {
    let mut store = empty_store();
    assert!(matches!(
        store.delete(&String::from("A")),
        Err(ApiError::AccountNotFound(_))
    ));
}

#[test]
fn save_overwrites_present_paths_and_keeps_prior_absent_ones() {
    let mut store = empty_store();
    store.save(&String::from("A"), &live(Some("cfg-1"), Some("set-1"), None));
    // Second save lacks the settings file: the prior copy stays in the
    // snapshot; the present path is replaced.
    store.save(&String::from("A"), &live(Some("cfg-2"), None, None));

    let mut probe = live(None, None, None);
    store.restore(&String::from("A"), &mut probe).unwrap();
    assert_eq!(probe.leaves[0], Some(b"cfg-2".to_vec()));
    assert_eq!(probe.leaves[1], Some(b"set-1".to_vec()));
    assert_eq!(probe.leaves[2], None);
}

#[test]
fn restore_leaves_paths_missing_from_snapshot_untouched() {
    let mut store = empty_store();
    store.save(&String::from("A"), &live(Some("cfg-a"), None, None));

    let mut installation = live(Some("cfg-x"), Some("set-x"), Some("sess-x"));
    store.restore(&String::from("A"), &mut installation).unwrap();

    assert_eq!(installation.leaves[0], Some(b"cfg-a".to_vec()));
    // Paths A's snapshot lacks are not reset.
    assert_eq!(installation.leaves[1], Some(b"set-x".to_vec()));
    assert_eq!(installation.leaves[2], Some(b"sess-x".to_vec()));
}

#[test]
fn save_records_marker_and_list_names_accounts() {
    let mut store = empty_store();
    assert!(store.list().is_empty());
    store.save(&String::from("first"), &live(None, None, None));
    assert_eq!(store.marker, Some(String::from("first")));
    store.save(&String::from("second"), &live(None, None, None));
    assert_eq!(store.marker, Some(String::from("second")));
    assert_eq!(store.list(), vec!["first", "second"]);
}
