use zotero::{cache_sync_action, FileTime, SyncAction};

fn t(secs: u64, nanos: u32) -> FileTime {
    FileTime { secs, nanos }
}

#[test]
fn missing_cache_is_created() {
    assert_eq!(cache_sync_action(t(100, 0), None), SyncAction::Create);
}

#[test]
fn older_cache_is_refreshed() {
    assert_eq!(cache_sync_action(t(100, 5), Some(t(100, 4))), SyncAction::Refresh);
    assert_eq!(cache_sync_action(t(100, 0), Some(t(99, 999_999_999))), SyncAction::Refresh);
}

#[test]
fn fresh_cache_is_kept() {
    assert_eq!(cache_sync_action(t(100, 5), Some(t(100, 5))), SyncAction::Keep);
    assert_eq!(cache_sync_action(t(100, 5), Some(t(101, 0))), SyncAction::Keep);
}

#[test]
fn sync_twice_copies_once() {
    let source = t(1000, 0);
    let first = cache_sync_action(source, None);
    assert_eq!(first, SyncAction::Create);
    // the copy is stamped when it is written, after the source was
    let copied = t(1005, 0);
    let second = cache_sync_action(source, Some(copied));
    assert_eq!(second, SyncAction::Keep);
}

#[test]
fn sync_after_source_change_copies_once() {
    let copied = t(1005, 0);
    assert_eq!(cache_sync_action(t(1000, 0), Some(copied)), SyncAction::Keep);
    let modified = t(2000, 0);
    assert_eq!(cache_sync_action(modified, Some(copied)), SyncAction::Refresh);
    let copied_again = t(2001, 0);
    assert_eq!(cache_sync_action(modified, Some(copied_again)), SyncAction::Keep);
}

#[test]
fn file_time_order() {
    assert!(t(1, 0).is_before(&t(1, 1)));
    assert!(t(1, 999).is_before(&t(2, 0)));
    assert!(!t(2, 0).is_before(&t(2, 0)));
    assert!(!t(3, 0).is_before(&t(2, 5)));
}
