//! The cross-device mover: an atomic rename when the volume allows it, and
//! otherwise a planned recursive copy — mirrored directories, recreated
//! symlinks, file contents copied one at a time with cumulative progress —
//! interruptible at every enumeration step.
use vstd::prelude::*;

use crate::errors::ToolchainError;
use crate::extract::EntryKind;
use crate::progress::InstallState;

verus! {

/// How the initial rename attempt ended, as the caller observed it.
#[derive(Debug, Clone, PartialEq)]
pub enum RenameOutcome {
    /// The rename succeeded; the move is complete.
    Renamed,
    /// The rename failed because source and destination sit on different
    /// storage volumes.
    CrossesDevices,
    /// The rename failed for any other reason; the error's message.
    Failed(String),
}

/// Decides the mover's response to the rename attempt: done, fall back to
/// the recursive copy (the result is `Ok(true)`), or a hard I/O error.
pub fn mv_decision(outcome: RenameOutcome) -> (r: Result<bool, ToolchainError>)
    ensures
        match outcome {
            RenameOutcome::Renamed => r == Ok::<bool, ToolchainError>(false),
            RenameOutcome::CrossesDevices => r == Ok::<bool, ToolchainError>(true),
            RenameOutcome::Failed(msg) => r == Err::<bool, ToolchainError>(ToolchainError::Io(msg)),
        },
{
    match outcome {
        RenameOutcome::Renamed => Ok(false),
        RenameOutcome::CrossesDevices => Ok(true),
        RenameOutcome::Failed(msg) => Err(ToolchainError::Io(msg)),
    }
}

/// One entry of the source tree, as enumeration reports it: its path
/// relative to the source root, what it is, its byte size when it is a
/// regular file, and its target when it is a symlink.
#[derive(Debug)]
pub struct TreeEntry {
    pub rel_path: String,
    pub kind: EntryKind,
    pub size: u64,
    pub link_target: String,
    pub link_is_dir: bool,
}

impl Clone for TreeEntry {
    fn clone(&self) -> (r: TreeEntry)
        ensures
            r == *self,
    {
        let r = TreeEntry {
            rel_path: self.rel_path.clone(),
            kind: self.kind,
            size: self.size,
            link_target: self.link_target.clone(),
            link_is_dir: self.link_is_dir,
        };
        proof {
            assert(r.rel_path == self.rel_path);
            assert(r.link_target == self.link_target);
        }
        r
    }
}

/// One action of the fallback copy, to be performed under the destination
/// root.
#[derive(Debug, Clone, PartialEq)]
pub enum CopyAction {
    /// Create this directory, mirroring the source directory's permissions.
    MkDir { rel_path: String },
    /// Copy the regular file's contents from the source.
    CopyFile { rel_path: String },
    /// Recreate the symlink pointing at the same target, without copying
    /// what it points to.
    MakeSymlink { rel_path: String, target: String, to_dir: bool },
}

/// The copy action that recreates one non-directory entry.
pub open spec fn action_of(e: TreeEntry) -> CopyAction {
    match e.kind {
        EntryKind::Dir => CopyAction::MkDir { rel_path: e.rel_path },
        EntryKind::File => CopyAction::CopyFile { rel_path: e.rel_path },
        EntryKind::Symlink => CopyAction::MakeSymlink {
            rel_path: e.rel_path,
            target: e.link_target,
            to_dir: e.link_is_dir,
        },
    }
}

/// The regular-file bytes among the first `i` entries.
pub open spec fn file_bytes(entries: Seq<TreeEntry>, i: int) -> int
    decreases i,
{
    if i <= 0 {
        0
    } else {
        file_bytes(entries, i - 1) + if entries[i - 1].kind is File {
            entries[i - 1].size as int
        } else {
            0
        }
    }
}

pub proof fn lemma_file_bytes_prefix(a: Seq<TreeEntry>, b: Seq<TreeEntry>, i: int)
    requires
        0 <= i <= a.len(),
        i <= b.len(),
        forall|k: int| 0 <= k < i ==> a[k] == b[k],
    ensures
        file_bytes(a, i) == file_bytes(b, i),
    decreases i,
{
    if i > 0 {
        lemma_file_bytes_prefix(a, b, i - 1);
    }
}

pub proof fn lemma_file_bytes_mono(entries: Seq<TreeEntry>, i: int, j: int)
    requires
        0 <= i <= j,
    ensures
        file_bytes(entries, i) <= file_bytes(entries, j),
    decreases j - i,
{
    if i < j {
        lemma_file_bytes_mono(entries, i, j - 1);
    }
}

/// Plans the fallback copy. The source tree is observed entry by entry in
/// top-down order; directories are created as they appear, regular files
/// and symlinks are recorded and replayed afterwards, files with cumulative
/// byte progress against the total.
pub struct CopyPlanner {
    pub observed: Vec<TreeEntry>,
    pub total_bytes: u64,
}

impl CopyPlanner {
    /// The byte total agrees with the recorded files, and only files and
    /// symlinks are recorded.
    pub open spec fn wf(self) -> bool {
        &&& self.total_bytes == file_bytes(self.observed@, self.observed@.len() as int)
        &&& forall|k: int|
            0 <= k < self.observed@.len() ==> !((#[trigger] self.observed@[k]).kind is Dir)
    }

    pub fn new() -> (r: CopyPlanner)
        ensures
            r.wf(),
            r.observed@ == Seq::<TreeEntry>::empty(),
            r.total_bytes == 0,
    {
        CopyPlanner { observed: Vec::new(), total_bytes: 0 }
    }

    /// Observes the next enumerated entry. The cancellation flag is checked
    /// first: once it is set, the step aborts with the cancellation error
    /// and plans nothing further. A directory yields its creation action at
    /// once; files and symlinks are recorded for the copy phase.
    pub fn observe(&mut self, entry: TreeEntry, cancelled: bool) -> (r: Result<
        Option<CopyAction>,
        ToolchainError,
    >)
        requires
            old(self).wf(),
            old(self).total_bytes + entry.size <= u64::MAX,
        ensures
            final(self).wf(),
            cancelled ==> r == Err::<Option<CopyAction>, ToolchainError>(ToolchainError::Cancelled)
                && *final(self) == *old(self),
            !cancelled ==> match entry.kind {
                EntryKind::Dir => {
                    &&& r == Ok::<Option<CopyAction>, ToolchainError>(
                        Some(CopyAction::MkDir { rel_path: entry.rel_path }),
                    )
                    &&& *final(self) == *old(self)
                },
                EntryKind::File => {
                    &&& r == Ok::<Option<CopyAction>, ToolchainError>(None)
                    &&& final(self).observed@ == old(self).observed@.push(entry)
                    &&& final(self).total_bytes == old(self).total_bytes + entry.size
                },
                EntryKind::Symlink => {
                    &&& r == Ok::<Option<CopyAction>, ToolchainError>(None)
                    &&& final(self).observed@ == old(self).observed@.push(entry)
                    &&& final(self).total_bytes == old(self).total_bytes
                },
            },
    {
        if cancelled {
            return Err(ToolchainError::Cancelled);
        }
        match entry.kind {
            EntryKind::Dir => Ok(Some(CopyAction::MkDir { rel_path: entry.rel_path })),
            EntryKind::File => {
                let size = entry.size;
                self.observed.push(entry);
                self.total_bytes = self.total_bytes + size;
                proof {
                    let pre = old(self).observed@;
                    lemma_file_bytes_prefix(pre, self.observed@, pre.len() as int);
                    assert(file_bytes(self.observed@, self.observed@.len() as int)
                        == file_bytes(pre, pre.len() as int) + size);
                }
                Ok(None)
            },
            EntryKind::Symlink => {
                self.observed.push(entry);
                proof {
                    let pre = old(self).observed@;
                    lemma_file_bytes_prefix(pre, self.observed@, pre.len() as int);
                    assert(file_bytes(self.observed@, self.observed@.len() as int)
                        == file_bytes(pre, pre.len() as int));
                }
                Ok(None)
            },
        }
    }

    /// Replays the recorded entries as copy actions, in observation order:
    /// each regular file is copied with a progress event carrying the
    /// cumulative bytes against the total, each symlink is recreated
    /// pointing at its original target. The final progress event reports
    /// exactly the total.
    pub fn copy_actions(&self, events: &mut Vec<InstallState>) -> (acts: Vec<CopyAction>)
        requires
            self.wf(),
        ensures
            acts@.len() == self.observed@.len(),
            forall|k: int|
                0 <= k < acts@.len() ==> acts@[k] == action_of(#[trigger] self.observed@[k]),
            final(events)@ == old(events)@ + copy_events(self.observed@, self.total_bytes),
    {
        let n = self.observed.len();
        let mut acts: Vec<CopyAction> = Vec::new();
        let mut cum: u64 = 0;
        let mut k: usize = 0;
        while k < n
            invariant
                k <= n,
                n == self.observed@.len(),
                self.wf(),
                cum == file_bytes(self.observed@, k as int),
                acts@.len() == k,
                forall|m: int|
                    0 <= m < k ==> acts@[m] == action_of(#[trigger] self.observed@[m]),
                events@ == old(events)@ + copy_events_upto(
                    self.observed@,
                    self.total_bytes,
                    k as int,
                ),
            decreases n - k,
        {
            let ghost pre_events = events@;
            let e: &TreeEntry = &self.observed[k];
            proof {
                lemma_file_bytes_mono(self.observed@, k + 1, n as int);
            }
            match e.kind {
                EntryKind::File => {
                    cum = cum + e.size;
                    acts.push(CopyAction::CopyFile { rel_path: e.rel_path.clone() });
                    events.push(
                        InstallState::ExtractCopy {
                            total_size: self.total_bytes,
                            bytes_copied: cum,
                        },
                    );
                },
                EntryKind::Symlink => {
                    acts.push(
                        CopyAction::MakeSymlink {
                            rel_path: e.rel_path.clone(),
                            target: e.link_target.clone(),
                            to_dir: e.link_is_dir,
                        },
                    );
                },
                EntryKind::Dir => {
                    acts.push(CopyAction::MkDir { rel_path: e.rel_path.clone() });
                },
            }
            proof {
                assert(acts@[k as int] == action_of(self.observed@[k as int]));
                assert(copy_events_upto(self.observed@, self.total_bytes, k + 1)
                    =~= copy_events_upto(self.observed@, self.total_bytes, k as int)
                    + if self.observed@[k as int].kind is File {
                        seq![
                            InstallState::ExtractCopy {
                                total_size: self.total_bytes,
                                bytes_copied: file_bytes(self.observed@, k + 1) as u64,
                            },
                        ]
                    } else {
                        Seq::<InstallState>::empty()
                    });
                assert(events@ =~= old(events)@ + copy_events_upto(
                    self.observed@,
                    self.total_bytes,
                    k + 1,
                ));
            }
            k += 1;
        }
        acts
    }
}

/// The progress events of copying the first `i` recorded entries: one per
/// regular file, with the cumulative bytes so far.
pub open spec fn copy_events_upto(entries: Seq<TreeEntry>, total: u64, i: int) -> Seq<InstallState>
    decreases i,
{
    if i <= 0 {
        Seq::empty()
    } else {
        copy_events_upto(entries, total, i - 1) + if entries[i - 1].kind is File {
            seq![
                InstallState::ExtractCopy {
                    total_size: total,
                    bytes_copied: file_bytes(entries, i) as u64,
                },
            ]
        } else {
            Seq::empty()
        }
    }
}

/// The progress events of the whole copy phase.
pub open spec fn copy_events(entries: Seq<TreeEntry>, total: u64) -> Seq<InstallState> {
    copy_events_upto(entries, total, entries.len() as int)
}

/// The action list of one full uncancelled fallback copy of a tree: every
/// directory is created, in walk order, and then every file and symlink is
/// replayed, in walk order — one action per tree entry, each carrying that
/// entry's path, target, and kind, so the destination receives an identical
/// tree.
pub open spec fn full_copy_actions(entries: Seq<TreeEntry>) -> Seq<CopyAction> {
    entries.filter(|e: TreeEntry| e.kind is Dir).map_values(|e: TreeEntry| action_of(e))
        + entries.filter(|e: TreeEntry| !(e.kind is Dir)).map_values(|e: TreeEntry| action_of(e))
}

/// The fallback copy covers the tree exactly: its action list has one
/// action per entry, and every action restates its entry through
/// `action_of`, which keeps paths, symlink targets, and kinds.
pub proof fn lemma_copy_covers_tree(entries: Seq<TreeEntry>)
    ensures
        full_copy_actions(entries).len() == entries.len(),
        forall|k: int|
            0 <= k < entries.filter(|e: TreeEntry| e.kind is Dir).len()
                ==> #[trigger] full_copy_actions(entries)[k] == action_of(
                entries.filter(|e: TreeEntry| e.kind is Dir)[k],
            ),
        forall|k: int|
            entries.filter(|e: TreeEntry| e.kind is Dir).len() <= k < entries.len()
                ==> #[trigger] full_copy_actions(entries)[k] == action_of(
                entries.filter(|e: TreeEntry| !(e.kind is Dir))[k - entries.filter(
                    |e: TreeEntry| e.kind is Dir,
                ).len()],
            ),
{
    lemma_filter_partition(entries);
}

/// A predicate and its negation split a sequence without loss.
proof fn lemma_filter_partition(entries: Seq<TreeEntry>)
    ensures
        entries.filter(|e: TreeEntry| e.kind is Dir).len() + entries.filter(
            |e: TreeEntry| !(e.kind is Dir),
        ).len() == entries.len(),
    decreases entries.len(),
{
    reveal(Seq::filter);
    if entries.len() > 0 {
        lemma_filter_partition(entries.drop_last());
    }
}

/// Observation splits the tree exactly: each non-directory entry is
/// recorded, each directory is not, so a full uncancelled observation run
/// leaves precisely the tree's files and symlinks recorded, in order.
pub proof fn lemma_observe_partitions(s: Seq<TreeEntry>, e: TreeEntry)
    ensures
        !(e.kind is Dir) ==> s.push(e).filter(|x: TreeEntry| !(x.kind is Dir)) == s.filter(
            |x: TreeEntry| !(x.kind is Dir),
        ).push(e),
        e.kind is Dir ==> s.push(e).filter(|x: TreeEntry| !(x.kind is Dir)) == s.filter(
            |x: TreeEntry| !(x.kind is Dir),
        ),
{
    reveal(Seq::filter);
    assert(s.push(e).drop_last() =~= s);
}

} // verus!
