use vstd::prelude::*;

verus! {

/// A file's modification time: whole seconds since the Unix epoch, and the
/// nanoseconds past them.
#[derive(Debug, Clone, Copy, PartialEq, Eq, Structural)]
pub struct FileTime {
    pub secs: u64,
    pub nanos: u32,
}

impl FileTime {
    /// Whether this time comes strictly before `other`.
    pub open spec fn precedes(self, other: FileTime) -> bool {
        self.secs < other.secs || (self.secs == other.secs && self.nanos < other.nanos)
    }

    /// Whether this time comes strictly before `other`.
    pub fn is_before(&self, other: &FileTime) -> (r: bool)
        ensures
            r == self.precedes(*other),
    {
        self.secs < other.secs || (self.secs == other.secs && self.nanos < other.nanos)
    }
}

/// What keeping the cached copy of the database fresh takes.
#[derive(Debug, Clone, Copy, PartialEq, Eq, Structural)]
pub enum SyncAction {
    /// The cached copy is at least as new as the source: nothing to do.
    Keep,
    /// The cached copy is older than the source: copy the source over it.
    Refresh,
    /// There is no cached copy: create its folder where missing, then copy.
    Create,
}

/// The copies of the source that an action makes.
pub open spec fn copies(action: SyncAction) -> nat {
    match action {
        SyncAction::Keep => 0,
        _ => 1,
    }
}

/// The action for a source modified at `source` and a cached copy modified
/// at `cached`, or missing.
pub open spec fn sync_action(source: FileTime, cached: Option<FileTime>) -> SyncAction {
    match cached {
        None => SyncAction::Create,
        Some(c) => if c.precedes(source) {
            SyncAction::Refresh
        } else {
            SyncAction::Keep
        },
    }
}

/// The modification time of the cached copy after `action`, where a copy
/// made is stamped `copied`.
pub open spec fn cached_after(action: SyncAction, cached: Option<FileTime>, copied: FileTime) -> Option<FileTime> {
    if copies(action) == 1 {
        Some(copied)
    } else {
        cached
    }
}

/// Decide how to bring the cached copy of the database up to date: copy
/// where it is missing or strictly older than the source, else keep it.
pub fn cache_sync_action(source: FileTime, cached: Option<FileTime>) -> (r: SyncAction)
    ensures
        r == sync_action(source, cached),
{
    match cached {
        None => SyncAction::Create,
        Some(c) => if c.is_before(&source) {
            SyncAction::Refresh
        } else {
            SyncAction::Keep
        },
    }
}

/// Syncing twice while the source stays unchanged copies at most once: the
/// first sync copies where the cache is missing or stale, and the second
/// copies nothing, given that a copy is no older than its source.
pub proof fn lemma_sync_twice_copies_once(source: FileTime, cached: Option<FileTime>, copied: FileTime)
    requires
        !copied.precedes(source),
    ensures
        (cached is None || cached->Some_0.precedes(source)) <==> copies(sync_action(source, cached)) == 1,
        copies(sync_action(source, cached_after(sync_action(source, cached), cached, copied))) == 0,
{
}

/// When the source is modified after a sync, later than the copy that the
/// sync left, the next sync copies exactly once.
pub proof fn lemma_sync_follows_source(
    source: FileTime,
    cached: Option<FileTime>,
    copied: FileTime,
    modified: FileTime,
)
    requires
        !copied.precedes(source),
        cached_after(sync_action(source, cached), cached, copied) is Some,
        cached_after(sync_action(source, cached), cached, copied)->Some_0.precedes(modified),
    ensures
        copies(sync_action(modified, cached_after(sync_action(source, cached), cached, copied))) == 1,
{
}

} // verus!
