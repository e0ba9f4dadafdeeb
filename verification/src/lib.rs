//! Management of versioned toolchain archives.
//!
//! The crate models the full install pipeline of a toolchain manager:
//! resolving a release, selecting the asset that fits the host, planning a
//! resumable download, verifying a streamed SHA-256 checksum, planning the
//! extraction of zip and tar.xz archives with a root-unwrap policy, moving
//! directory trees across devices, removing installed trees with byte
//! accounting, and keeping the registry of installed versions with its
//! active-version pointer.
//!
//! All decisions are made here, under contracts; the surrounding binary
//! performs the network and file-system actions that the library plans.
use vstd::prelude::*;

pub mod checksum;
pub mod client;
pub mod dmg;
pub mod download;
pub mod errors;
pub mod extract;
pub mod host;
pub mod installed;
pub mod mover;
pub mod progress;
pub mod remove;
pub mod release;
pub mod strutil;
pub mod version;

pub use checksum::Sha256Stream;
pub use checksum::calculate_checksum;
pub use checksum::checksums_match;
pub use client::ActiveFileAction;
pub use client::ChecksumOutcome;
pub use client::InstallJob;
pub use client::InstallPhase;
pub use client::ToolchainClient;
pub use client::checksum_url;
pub use client::current_toolchain_filename;
pub use client::purge_cache_total;
pub use dmg::DmgUnmountRetry;
pub use dmg::UnmountStep;
pub use dmg::extract_dmg;
pub use download::DownloadAction;
pub use download::DownloadPlan;
pub use download::DownloadSession;
pub use download::plan_download;
pub use download::range_header_value;
pub use errors::ExtractError;
pub use errors::ToolchainError;
pub use extract::ArchiveEntry;
pub use extract::ArchiveKind;
pub use extract::EntryKind;
pub use extract::archive_kind;
pub use extract::extract_tar_xz;
pub use extract::extract_zip;
pub use host::HostArch;
pub use host::HostOS;
pub use installed::InstalledToolchain;
pub use mover::CopyAction;
pub use mover::CopyPlanner;
pub use mover::RenameOutcome;
pub use mover::TreeEntry;
pub use mover::mv_decision;
pub use progress::InstallState;
pub use progress::RemoveProgress;
pub use release::Asset;
pub use release::ToolchainRelease;
pub use release::pick_latest_release;
pub use remove::RemoveAction;
pub use remove::RemoveItem;
pub use remove::remove_dir_progress;
pub use strutil::first_token;
pub use strutil::trim_ascii;
pub use version::ToolchainVersion;

verus! {

/// The outcome of checking a shared cancellation flag between two steps of a
/// long-running loop: once the flag is set, the step must abort with the
/// distinct cancellation error instead of carrying on.
pub fn cancellation_gate(cancelled: bool) -> (r: Result<(), errors::ToolchainError>)
    ensures
        cancelled ==> r == Err::<(), errors::ToolchainError>(errors::ToolchainError::Cancelled),
        !cancelled ==> r == Ok::<(), errors::ToolchainError>(()),
{
    if cancelled {
        Err(errors::ToolchainError::Cancelled)
    } else {
        Ok(())
    }
}

} // verus!
