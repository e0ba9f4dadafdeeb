//! Recursive directory removal, planned as data: the enumerated tree, in
//! post-order, becomes one delete action per entry with byte-accounted
//! progress. Only regular-file bytes count toward the total; directories
//! and symlinks contribute nothing.
use vstd::prelude::*;

use crate::progress::RemoveProgress;

verus! {

/// One enumerated entry of the tree to remove, in post-order: children
/// before the directory containing them.
#[derive(Debug)]
pub struct RemoveItem {
    pub path: String,
    pub sym: bool,
    pub dir: bool,
    pub size: u64,
}

impl Clone for RemoveItem {
    fn clone(&self) -> (r: RemoveItem)
        ensures
            r == *self,
    {
        let r = RemoveItem {
            path: self.path.clone(),
            sym: self.sym,
            dir: self.dir,
            size: self.size,
        };
        proof {
            assert(r.path == self.path);
        }
        r
    }
}

/// How one entry is deleted.
#[derive(Debug, Clone, PartialEq)]
pub enum RemoveAction {
    RemoveFile { path: String },
    RemoveDir { path: String },
}

/// The delete action for one entry. A symlink to a directory is removed as
/// a directory handle on Windows and as a plain link elsewhere; directories
/// are removed as directories, everything else as a file.
pub open spec fn remove_action_of(item: RemoveItem, on_windows: bool) -> RemoveAction {
    if item.sym {
        if on_windows && item.dir {
            RemoveAction::RemoveDir { path: item.path }
        } else {
            RemoveAction::RemoveFile { path: item.path }
        }
    } else if item.dir {
        RemoveAction::RemoveDir { path: item.path }
    } else {
        RemoveAction::RemoveFile { path: item.path }
    }
}

/// Whether an entry is a regular file: neither a symlink nor a directory.
pub open spec fn is_regular(item: RemoveItem) -> bool {
    !item.sym && !item.dir
}

/// The regular-file bytes among the first `i` entries.
pub open spec fn removed_bytes(items: Seq<RemoveItem>, i: int) -> int
    decreases i,
{
    if i <= 0 {
        0
    } else {
        removed_bytes(items, i - 1) + if is_regular(items[i - 1]) {
            items[i - 1].size as int
        } else {
            0
        }
    }
}

pub proof fn lemma_removed_bytes_mono(items: Seq<RemoveItem>, i: int, j: int)
    requires
        0 <= i <= j,
    ensures
        removed_bytes(items, i) <= removed_bytes(items, j),
    decreases j - i,
{
    if i < j {
        lemma_removed_bytes_mono(items, i, j - 1);
    }
}

/// The ordered progress events of removing the items: a start event with
/// the total of regular-file bytes, one event per deleted entry carrying
/// the cumulative bytes removed, and an end event.
pub open spec fn remove_events_spec(items: Seq<RemoveItem>) -> Seq<RemoveProgress> {
    seq![
        RemoveProgress::Start { total_bytes: removed_bytes(items, items.len() as int) as u64 },
    ] + Seq::new(
        items.len(),
        |k: int| RemoveProgress::Progress { bytes_removed: removed_bytes(items, k + 1) as u64 },
    ) + seq![RemoveProgress::End]
}

/// Removal accounting: the cumulative bytes reported by the last progress
/// event before `End` equal the total announced at `Start`, which is the
/// total size of the tree's regular files — directories and symlinks
/// contribute nothing.
pub proof fn lemma_remove_accounting(items: Seq<RemoveItem>)
    requires
        items.len() > 0,
    ensures
        remove_events_spec(items)[items.len() as int] == (RemoveProgress::Progress {
            bytes_removed: removed_bytes(items, items.len() as int) as u64,
        }),
        remove_events_spec(items)[0] == (RemoveProgress::Start {
            total_bytes: removed_bytes(items, items.len() as int) as u64,
        }),
{
}

/// Plans the deletion of an enumerated tree: one action per entry in
/// post-order, and the start, per-entry, and end progress events. The
/// delete phase itself is not interruptible; cancellation is observed
/// during enumeration, before this plan is made.
pub fn remove_dir_progress(items: &Vec<RemoveItem>, on_windows: bool, events: &mut Vec<
    RemoveProgress,
>) -> (acts: Vec<RemoveAction>)
    requires
        removed_bytes(items@, items@.len() as int) <= u64::MAX,
    ensures
        acts@.len() == items@.len(),
        forall|k: int|
            0 <= k < acts@.len() ==> acts@[k] == remove_action_of(
                #[trigger] items@[k],
                on_windows,
            ),
        final(events)@ == old(events)@ + remove_events_spec(items@),
{
    let n = items.len();
    let ghost total = removed_bytes(items@, items@.len() as int);
    proof {
        lemma_removed_bytes_mono(items@, 0, n as int);
    }
    let mut total_exec: u64 = 0;
    let mut k: usize = 0;
    while k < n
        invariant
            k <= n,
            n == items@.len(),
            total == removed_bytes(items@, n as int),
            total <= u64::MAX,
            total_exec == removed_bytes(items@, k as int),
        decreases n - k,
    {
        proof {
            lemma_removed_bytes_mono(items@, k + 1, n as int);
        }
        let it: &RemoveItem = &items[k];
        if !it.sym && !it.dir {
            total_exec = total_exec + it.size;
        }
        k += 1;
    }
    events.push(RemoveProgress::Start { total_bytes: total_exec });
    let ghost mids = Seq::new(
        items@.len(),
        |k: int| RemoveProgress::Progress { bytes_removed: removed_bytes(items@, k + 1) as u64 },
    );
    let mut acts: Vec<RemoveAction> = Vec::new();
    let mut cum: u64 = 0;
    let mut i: usize = 0;
    while i < n
        invariant
            i <= n,
            n == items@.len(),
            total == removed_bytes(items@, n as int),
            total <= u64::MAX,
            cum == removed_bytes(items@, i as int),
            acts@.len() == i,
            forall|m: int|
                0 <= m < i ==> acts@[m] == remove_action_of(#[trigger] items@[m], on_windows),
            mids == Seq::new(
                items@.len(),
                |k: int|
                    RemoveProgress::Progress {
                        bytes_removed: removed_bytes(items@, k + 1) as u64,
                    },
            ),
            events@ == old(events)@ + seq![
                RemoveProgress::Start { total_bytes: removed_bytes(items@, n as int) as u64 },
            ] + mids.take(i as int),
        decreases n - i,
    {
        proof {
            lemma_removed_bytes_mono(items@, i + 1, n as int);
        }
        let ghost pre_events = events@;
        let it: &RemoveItem = &items[i];
        if it.sym {
            if on_windows && it.dir {
                acts.push(RemoveAction::RemoveDir { path: it.path.clone() });
            } else {
                acts.push(RemoveAction::RemoveFile { path: it.path.clone() });
            }
        } else if it.dir {
            acts.push(RemoveAction::RemoveDir { path: it.path.clone() });
        } else {
            acts.push(RemoveAction::RemoveFile { path: it.path.clone() });
            cum = cum + it.size;
        }
        events.push(RemoveProgress::Progress { bytes_removed: cum });
        proof {
            assert(acts@[i as int] == remove_action_of(items@[i as int], on_windows));
            assert(mids[i as int] == RemoveProgress::Progress { bytes_removed: cum });
            assert(mids.take(i + 1) =~= mids.take(i as int) + seq![mids[i as int]]);
            assert(events@ =~= pre_events + seq![mids[i as int]]);
        }
        i += 1;
    }
    events.push(RemoveProgress::End);
    proof {
        assert(mids.take(n as int) =~= mids);
        assert(events@ =~= old(events)@ + remove_events_spec(items@));
    }
    acts
}

} // verus!
