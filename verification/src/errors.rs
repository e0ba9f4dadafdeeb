//! The error taxonomy of the toolchain manager.
use vstd::prelude::*;

use crate::host::HostArch;
use crate::host::HostOS;
use crate::version::ToolchainVersion;

verus! {

/// Failures of archive extraction.
#[derive(Debug, Clone, PartialEq)]
pub enum ExtractError {
    /// Disk-image extraction is not supported on this platform.
    DmgNotSupported,
    /// The archive did not contain the expected contents: no top-level
    /// directory was found where one is required.
    ContentsNotFound,
    /// Disk-image extraction failed; the message of the underlying error.
    Dmg(String),
    /// Zip extraction failed; the message of the underlying error.
    Zip(String),
}

/// Failures of toolchain operations.
#[derive(Debug, Clone, PartialEq)]
pub enum ToolchainError {
    /// No recent release carries the product suffix; all candidate tag names
    /// are attached for diagnosis.
    LatestReleaseMissing { candidates: Vec<String> },
    /// No asset of the release fits the host; all candidate asset names are
    /// attached for diagnosis.
    ReleaseAssetMissing {
        allowed_os: HostOS,
        allowed_arches: Vec<HostArch>,
        candidates: Vec<String>,
    },
    /// The asset cannot be downloaded because its name has no file-name part.
    InvalidAssetName { name: String },
    /// The digest of the downloaded asset did not match the expected value.
    ChecksumMismatch { expected: String, actual: String },
    /// Extraction of the downloaded archive failed.
    Extract(ExtractError),
    /// The operation was cancelled.
    Cancelled,
    /// The named toolchain is not installed.
    ToolchainNotInstalled { version: ToolchainVersion },
    /// A request to the release-listing API failed; its message.
    GitHubApi(String),
    /// Downloading the asset failed; the message of the transport error.
    Download(String),
    /// Moving a directory to the trash failed; its message.
    Trash(String),
    /// A file-system operation failed; the message of the I/O error.
    Io(String),
}

impl From<ExtractError> for ToolchainError {
    fn from(e: ExtractError) -> (r: ToolchainError) {
        ToolchainError::Extract(e)
    }
}

impl vstd::std_specs::convert::FromSpecImpl<ExtractError> for ToolchainError {
    open spec fn obeys_from_spec() -> bool {
        true
    }

    open spec fn from_spec(e: ExtractError) -> ToolchainError {
        ToolchainError::Extract(e)
    }
}

} // verus!
