use arm_toolchain::CopyAction;
use arm_toolchain::CopyPlanner;
use arm_toolchain::EntryKind;
use arm_toolchain::InstallState;
use arm_toolchain::RemoveAction;
use arm_toolchain::RemoveItem;
use arm_toolchain::RemoveProgress;
use arm_toolchain::RenameOutcome;
use arm_toolchain::ToolchainError;
use arm_toolchain::TreeEntry;
use arm_toolchain::cancellation_gate;
use arm_toolchain::mv_decision;
use arm_toolchain::remove_dir_progress;

fn entry(rel_path: &str, kind: EntryKind, size: u64, target: &str) -> TreeEntry {
    TreeEntry {
        rel_path: rel_path.to_string(),
        kind,
        size,
        link_target: target.to_string(),
        link_is_dir: false,
    }
}

#[test]
fn rename_decision() {
    assert_eq!(mv_decision(RenameOutcome::Renamed), Ok(false));
    assert_eq!(mv_decision(RenameOutcome::CrossesDevices), Ok(true));
    assert_eq!(
        mv_decision(RenameOutcome::Failed("disk gone".to_string())),
        Err(ToolchainError::Io("disk gone".to_string()))
    );
}

/// The fallback copy reproduces the observed tree exactly: every directory
/// is created, every file copied, every symlink recreated with its target,
/// in order, with cumulative byte progress.
#[test]
fn fallback_copy_reproduces_tree() {
    let mut planner = CopyPlanner::new();
    let tree = vec![
        entry("bin", EntryKind::Dir, 0, ""),
        entry("bin/clang", EntryKind::File, 5, ""),
        entry("bin/clang++", EntryKind::Symlink, 0, "clang"),
        entry("README", EntryKind::File, 7, ""),
    ];
    let mut mkdirs = Vec::new();
    for e in tree {
        match planner.observe(e, false).unwrap() {
            Some(action) => mkdirs.push(action),
            None => {}
        }
    }
    assert_eq!(mkdirs, vec![CopyAction::MkDir { rel_path: "bin".to_string() }]);
    assert_eq!(planner.total_bytes, 12);

    let mut events = Vec::new();
    let actions = planner.copy_actions(&mut events);
    assert_eq!(
        actions,
        vec![
            CopyAction::CopyFile { rel_path: "bin/clang".to_string() },
            CopyAction::MakeSymlink {
                rel_path: "bin/clang++".to_string(),
                target: "clang".to_string(),
                to_dir: false,
            },
            CopyAction::CopyFile { rel_path: "README".to_string() },
        ]
    );
    assert_eq!(
        events,
        vec![
            InstallState::ExtractCopy { total_size: 12, bytes_copied: 5 },
            InstallState::ExtractCopy { total_size: 12, bytes_copied: 12 },
        ]
    );
}

/// Cancellation aborts the copy at the next enumeration step with the
/// distinct cancellation error, never silent success.
#[test]
fn cancellation_mid_copy_aborts_promptly() {
    let mut planner = CopyPlanner::new();
    planner
        .observe(entry("a", EntryKind::File, 3, ""), false)
        .unwrap();
    let before = planner.observed.len();
    let r = planner.observe(entry("b", EntryKind::File, 4, ""), true);
    assert_eq!(r, Err(ToolchainError::Cancelled));
    assert_eq!(planner.observed.len(), before);
    assert_eq!(planner.total_bytes, 3);

    assert_eq!(cancellation_gate(true), Err(ToolchainError::Cancelled));
    assert_eq!(cancellation_gate(false), Ok(()));
}

fn item(path: &str, sym: bool, dir: bool, size: u64) -> RemoveItem {
    RemoveItem { path: path.to_string(), sym, dir, size }
}

/// The bytes reported at the end of a removal equal the total size of the
/// regular files alone; directories and symlinks count nothing.
#[test]
fn removal_accounts_only_regular_file_bytes() {
    let items = vec![
        item("d/a.o", false, false, 100),
        item("d/link", true, false, 999),
        item("d/sub", false, true, 4096),
        item("d/b.o", false, false, 23),
        item("d", false, true, 4096),
    ];
    let mut events = Vec::new();
    let actions = remove_dir_progress(&items, false, &mut events);
    assert_eq!(
        actions,
        vec![
            RemoveAction::RemoveFile { path: "d/a.o".to_string() },
            RemoveAction::RemoveFile { path: "d/link".to_string() },
            RemoveAction::RemoveDir { path: "d/sub".to_string() },
            RemoveAction::RemoveFile { path: "d/b.o".to_string() },
            RemoveAction::RemoveDir { path: "d".to_string() },
        ]
    );
    assert_eq!(
        events,
        vec![
            RemoveProgress::Start { total_bytes: 123 },
            RemoveProgress::Progress { bytes_removed: 100 },
            RemoveProgress::Progress { bytes_removed: 100 },
            RemoveProgress::Progress { bytes_removed: 100 },
            RemoveProgress::Progress { bytes_removed: 123 },
            RemoveProgress::Progress { bytes_removed: 123 },
            RemoveProgress::End,
        ]
    );
}

/// A symlink to a directory is deleted as a directory handle on Windows and
/// as a plain link elsewhere.
#[test]
fn symlinked_directory_removal_is_platform_dependent() {
    let items = vec![item("d/link", true, true, 0)];
    let mut events = Vec::new();
    let on_windows = remove_dir_progress(&items, true, &mut events);
    assert_eq!(on_windows, vec![RemoveAction::RemoveDir { path: "d/link".to_string() }]);
    let mut events = Vec::new();
    let elsewhere = remove_dir_progress(&items, false, &mut events);
    assert_eq!(elsewhere, vec![RemoveAction::RemoveFile { path: "d/link".to_string() }]);
}

#[test]
fn empty_tree_removal_reports_zero() {
    let items: Vec<RemoveItem> = Vec::new();
    let mut events = Vec::new();
    let actions = remove_dir_progress(&items, false, &mut events);
    assert!(actions.is_empty());
    assert_eq!(
        events,
        vec![RemoveProgress::Start { total_bytes: 0 }, RemoveProgress::End]
    );
}
