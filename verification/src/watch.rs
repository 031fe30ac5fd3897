//! Change watching: the poll-loop state machine that turns file metadata
//! observations into change events.
//!
//! A watcher polls the backing file's metadata on an interval, from a
//! worker thread of its own, unrelated to the mapping's lock.  The worker's
//! loop is plain plumbing; what it decides each round — which event to
//! emit, and when to stop — is [`WatchState::observe`], verified here.

use vstd::prelude::*;

verus! {

/// Type of change detected in a watched file.
#[derive(Debug, Clone, Copy, PartialEq, Eq)]
pub enum ChangeKind {
    /// File content was modified.
    Modified,
    /// File metadata changed (permissions, timestamps, and the like).
    Metadata,
    /// File was removed.
    Removed,
}

/// Event describing a change to a watched memory-mapped file.
#[derive(Debug, Clone, Copy, PartialEq, Eq)]
pub struct ChangeEvent {
    /// Offset where the change occurred, when known.
    pub offset: Option<u64>,
    /// Length of the changed region, when known.
    pub len: Option<u64>,
    /// Type of change.
    pub kind: ChangeKind,
}

/// The watcher's memory between polls: what the last readable observation
/// of the file looked like.  A modification time is carried as an opaque
/// stamp; only equality of stamps is ever consulted.
#[derive(Debug, Clone, Copy, PartialEq, Eq)]
pub struct WatchState {
    /// Modification stamp at the last poll, if one was readable.
    pub last_modified: Option<u64>,
    /// File length at the last poll, if one was readable.
    pub last_len: Option<u64>,
}

impl WatchState {
    /// Start watching from an initial observation (either part may be
    /// unreadable).
    pub fn new(modified: Option<u64>, len: Option<u64>) -> (r: WatchState)
        ensures
            r.last_modified == modified,
            r.last_len == len,
    {
        WatchState { last_modified: modified, last_len: len }
    }

    /// Classify one poll: `current` is the file's (stamp, length) now, or
    /// `None` when the file is gone.  Returns the event to emit, if any,
    /// and whether the watcher should keep polling.
    ///
    /// A vanished file emits `Removed` and stops the watcher.  A changed
    /// length means the content changed (`Modified`); a changed stamp at an
    /// unchanged length is a metadata-only change (`Metadata`).  The state
    /// advances exactly when an event is emitted, so one change yields one
    /// event, not one per poll.
    pub fn observe(&mut self, current: Option<(u64, u64)>) -> (r: (Option<ChangeEvent>, bool))
        ensures
            current is None ==> r == (
                Some(ChangeEvent { offset: None, len: None, kind: ChangeKind::Removed }),
                false,
            ) && *final(self) == *old(self),
            current matches Some(cur) ==> ({
                let changed = Some(cur.0) != old(self).last_modified || Some(cur.1) != old(
                    self,
                ).last_len;
                &&& r.1
                &&& !changed ==> r.0 is None && *final(self) == *old(self)
                &&& changed ==> r.0 == Some(
                    ChangeEvent {
                        offset: None,
                        len: None,
                        kind: if Some(cur.1) != old(self).last_len {
                            ChangeKind::Modified
                        } else {
                            ChangeKind::Metadata
                        },
                    },
                ) && final(self).last_modified == Some(cur.0) && final(self).last_len == Some(
                    cur.1,
                )
            }),
    {
        match current {
            None => (
                Some(ChangeEvent { offset: None, len: None, kind: ChangeKind::Removed }),
                false,
            ),
            Some((stamp, len)) => {
                let modified_changed = match self.last_modified {
                    Some(x) => x != stamp,
                    None => true,
                };
                let len_changed = match self.last_len {
                    Some(x) => x != len,
                    None => true,
                };
                if modified_changed || len_changed {
                    let kind = if len_changed {
                        ChangeKind::Modified
                    } else {
                        ChangeKind::Metadata
                    };
                    self.last_modified = Some(stamp);
                    self.last_len = Some(len);
                    (Some(ChangeEvent { offset: None, len: None, kind }), true)
                } else {
                    (None, true)
                }
            },
        }
    }
}

} // verus!
