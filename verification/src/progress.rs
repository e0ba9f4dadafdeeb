//! Ordered progress events emitted by the long-running pipelines, consumed by
//! whatever presentation layer drives the library.
use vstd::prelude::*;

verus! {

/// Progress of one install: download, checksum verification, extraction.
#[derive(Debug, Clone, Copy, PartialEq, Eq, Structural)]
pub enum InstallState {
    DownloadBegin { asset_size: u64, bytes_read: u64 },
    Download { bytes_read: u64 },
    DownloadFinish,
    VerifyingBegin { asset_size: u64 },
    Verifying { bytes_read: u64 },
    VerifyingFinish,
    ExtractBegin,
    ExtractCopy { total_size: u64, bytes_copied: u64 },
    ExtractCleanUp,
    ExtractDone,
}

/// Progress of one recursive directory removal.
#[derive(Debug, Clone, Copy, PartialEq, Eq, Structural)]
pub enum RemoveProgress {
    Start { total_bytes: u64 },
    Progress { bytes_removed: u64 },
    End,
}

} // verus!
