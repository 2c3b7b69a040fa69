use std::sync::mpsc;
use weave_fs::{
    forward_batch, millis_since, move_error, move_plan, read_dir, remove_action, rename_check,
    start_watch, unwatch, watch, watch_error, DirEntry, EpochOffset, FsError, IoKind, MoveKind,
    NotifyFailure, RawEntry, RawMetadata, RemoveAction, WatchError, WatchOptions, WatchRegistry,
    WatchSession, DEFAULT_DEBOUNCE_MS,
};

fn offset(before_epoch: bool, millis: u128) -> EpochOffset {
    EpochOffset { before_epoch, millis }
}

fn raw(name: &str, is_dir: bool, ext: Option<&str>, metadata: Option<RawMetadata>) -> RawEntry {
    RawEntry {
        name: name.to_string(),
        path: format!("/base/{}", name),
        is_dir,
        ext: ext.map(|e| e.to_string()),
        metadata,
    }
}

#[test]
fn millis_after_epoch() {
    assert_eq!(millis_since(Some(offset(false, 1_700_000_000_123))), Some(1_700_000_000_123));
}

#[test]
fn millis_before_epoch_is_the_distance() {
    assert_eq!(millis_since(Some(offset(true, 250))), Some(250));
}

#[test]
fn millis_missing_timestamp() {
    assert_eq!(millis_since(None), None);
}

#[test]
fn millis_beyond_u64_keeps_low_bits() {
    let big: u128 = (1u128 << 64) + 5;
    assert_eq!(millis_since(Some(offset(false, big))), Some(5));
}

#[test]
fn listing_keeps_order_and_skips_unreadable() {
    let meta = RawMetadata {
        accessed: Some(offset(false, 10)),
        modified: None,
        created: Some(offset(false, 30)),
    };
    let entries = vec![
        Some(raw("a.txt", false, Some("txt"), Some(meta))),
        None,
        Some(raw("docs", true, None, None)),
    ];
    let items: Vec<DirEntry> = read_dir(&entries);
    assert_eq!(items.len(), 2);
    assert_eq!(items[0].name, "a.txt");
    assert_eq!(items[0].path, "/base/a.txt");
    assert!(!items[0].is_dir);
    assert_eq!(items[0].ext.as_deref(), Some("txt"));
    assert_eq!(items[0].atime, Some(10));
    assert_eq!(items[0].mtime, None);
    assert_eq!(items[0].ctime, Some(30));
    assert_eq!(items[1].name, "docs");
    assert!(items[1].is_dir);
    assert_eq!(items[1].ext, None);
    assert_eq!(items[1].atime, None);
    assert_eq!(items[1].ctime, None);
}

#[test]
fn listing_of_empty_directory() {
    let entries: Vec<Option<RawEntry>> = vec![];
    assert!(read_dir(&entries).is_empty());
    assert!(read_dir(&vec![None, None]).is_empty());
}

#[test]
fn default_options() {
    let o = WatchOptions::default();
    assert!(!o.recursive);
    assert_eq!(o.debounce, 2000);
    assert_eq!(DEFAULT_DEBOUNCE_MS, 2000);
    assert_eq!(WatchOptions::new(true, 50), WatchOptions { recursive: true, debounce: 50 });
}

#[test]
fn remove_of_missing_path_is_noop() {
    assert_eq!(remove_action(false, false), RemoveAction::Nothing);
    assert_eq!(remove_action(false, true), RemoveAction::Nothing);
}

#[test]
fn remove_of_file_and_directory() {
    assert_eq!(remove_action(true, true), RemoveAction::RemoveFile);
    assert_eq!(remove_action(true, false), RemoveAction::RemoveDirAll);
}

#[test]
fn rename_onto_taken_name_fails() {
    assert_eq!(rename_check(true), Err(FsError::Io(IoKind::AlreadyExists)));
    assert_eq!(rename_check(false), Ok(()));
}

#[test]
fn move_without_overwrite_onto_existing_fails() {
    assert_eq!(move_plan(true, true, false), Err(FsError::Io(IoKind::AlreadyExists)));
    assert_eq!(move_plan(false, true, false), Err(FsError::Io(IoKind::AlreadyExists)));
}

#[test]
fn move_with_overwrite_or_free_target() {
    assert_eq!(move_plan(true, true, true), Ok(MoveKind::File));
    assert_eq!(move_plan(false, true, true), Ok(MoveKind::Dir));
    assert_eq!(move_plan(true, false, false), Ok(MoveKind::File));
    assert_eq!(move_plan(false, false, false), Ok(MoveKind::Dir));
}

#[test]
fn move_errors() {
    assert_eq!(move_error(IoKind::AlreadyExists), FsError::Io(IoKind::AlreadyExists));
    assert_eq!(move_error(IoKind::NotFound), FsError::Io(IoKind::Other));
    assert_eq!(move_error(IoKind::PermissionDenied), FsError::Io(IoKind::Other));
}

#[test]
fn watch_failures_are_sorted() {
    assert_eq!(watch_error(NotifyFailure::PathNotFound), WatchError::PathNotFound);
    assert_eq!(watch_error(NotifyFailure::Io(IoKind::NotFound)), WatchError::PathNotFound);
    assert_eq!(
        watch_error(NotifyFailure::Io(IoKind::PermissionDenied)),
        WatchError::PermissionDenied
    );
    assert_eq!(watch_error(NotifyFailure::Io(IoKind::Other)), WatchError::Failed);
    assert_eq!(watch_error(NotifyFailure::Generic), WatchError::Failed);
    assert_eq!(watch_error(NotifyFailure::WatchNotFound), WatchError::Failed);
    assert_eq!(watch_error(NotifyFailure::InvalidConfig), WatchError::Failed);
    assert_eq!(watch_error(NotifyFailure::MaxFilesWatch), WatchError::Failed);
}

#[test]
fn registry_hands_out_fresh_handles() {
    let mut reg: WatchRegistry<u32> = WatchRegistry::new();
    assert_eq!(reg.len(), 0);
    let a = reg.insert(7).unwrap();
    let b = reg.insert(8).unwrap();
    assert_ne!(a, b);
    assert!(reg.contains(a) && reg.contains(b));
    assert!(!reg.is_full());
    assert_eq!(reg.len(), 2);
}

#[test]
fn registry_take_twice() {
    let mut reg: WatchRegistry<u32> = WatchRegistry::new();
    let h = reg.insert(42).unwrap();
    assert_eq!(reg.take(h), Ok(42));
    assert_eq!(reg.take(h), Err(FsError::HandleNotFound));
    assert!(!reg.contains(h));
}

#[test]
fn registry_unknown_handle() {
    let mut reg: WatchRegistry<u32> = WatchRegistry::new();
    assert_eq!(reg.take(3), Err(FsError::HandleNotFound));
}

#[test]
fn bridge_forwards_successful_batch_in_order() {
    let ok: Result<Vec<u8>, Vec<String>> = Ok(vec![3, 1, 2]);
    assert_eq!(forward_batch(ok), vec![3, 1, 2]);
}

#[test]
fn bridge_drops_error_batch() {
    let err: Result<Vec<u8>, Vec<String>> = Err(vec!["gone".to_string()]);
    assert!(forward_batch(err).is_empty());
}

#[test]
fn watch_session_keeps_paths_and_options() {
    let (tx, _rx) = mpsc::channel();
    let paths = vec![".".to_string()];
    let options = WatchOptions { recursive: true, debounce: 50 };
    let session = watch(&paths, tx, options).unwrap();
    assert_eq!(session.paths(), &paths);
    assert_eq!(session.options(), options);
    let mut session = session;
    let outcomes = session.release();
    assert_eq!(outcomes.len(), 1);
    assert_eq!(outcomes[0].0, ".");
    assert_eq!(outcomes[0].1, None);
}

#[test]
fn watch_of_missing_path_fails() {
    let (tx, _rx) = mpsc::channel();
    let paths = vec![".".to_string(), "./no/such/directory/here".to_string()];
    let r = watch(&paths, tx, WatchOptions::default());
    assert!(matches!(r, Err(FsError::Watcher(WatchError::PathNotFound))));
}

#[test]
fn stop_watch_twice() {
    let mut reg = WatchRegistry::new();
    let (tx, _rx) = mpsc::channel();
    let h = start_watch(&mut reg, &vec![".".to_string()], tx, WatchOptions::default()).unwrap();
    assert!(reg.contains(h));
    let (session, outcomes) = unwatch(&mut reg, h).unwrap();
    assert_eq!(session.paths(), &vec![".".to_string()]);
    assert_eq!(outcomes.len(), 1);
    assert_eq!(outcomes[0].0, ".");
    assert!(matches!(unwatch(&mut reg, h), Err(FsError::HandleNotFound)));
    assert_eq!(reg.len(), 0);
}

#[test]
fn failed_start_leaves_registry_unchanged() {
    let mut reg = WatchRegistry::new();
    let (tx, _rx) = mpsc::channel();
    let r = start_watch(&mut reg, &vec!["./missing-dir".to_string()], tx, WatchOptions::default());
    assert!(matches!(r, Err(FsError::Watcher(_))));
    assert_eq!(reg.len(), 0);
}

#[test]
fn open_session_then_add_paths() {
    let (tx, _rx) = mpsc::channel();
    let mut session = WatchSession::open(tx, WatchOptions::new(false, 50)).unwrap();
    assert!(session.paths().is_empty());
    assert_eq!(session.add_paths(&vec![".".to_string(), "src".to_string()]), Ok(()));
    assert_eq!(session.paths(), &vec![".".to_string(), "src".to_string()]);
    let r = session.add_paths(&vec!["tests".to_string(), "./not-here".to_string()]);
    assert_eq!(r, Err(FsError::Watcher(WatchError::PathNotFound)));
    assert_eq!(session.paths().len(), 2);
    let outcomes = session.release();
    assert_eq!(outcomes.len(), 2);
    assert_eq!(outcomes[1].0, "src");
}
