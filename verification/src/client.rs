//! The toolchain registry: the two directory roots, the in-memory
//! active-version pointer mirrored to disk, and the install pipeline that
//! gates download, checksum verification, extraction, and activation.
use vstd::prelude::*;

use crate::checksum::checksums_match;
use crate::errors::ToolchainError;
use crate::extract::archive_kind;
use crate::extract::archive_kind_of;
use crate::extract::ArchiveKind;
use crate::installed::path_join;
use crate::installed::InstalledToolchain;
use crate::progress::InstallState;
use crate::release::Asset;
use crate::strutil::eq_ignore_case_spec;
use crate::strutil::first_token;
use crate::strutil::first_token_spec;
use crate::strutil::trim_ascii;
use crate::strutil::trim_spec;
use crate::version::ToolchainVersion;

verus! {

/// The name of the file inside the toolchains root that stores the active
/// version.
pub fn current_toolchain_filename() -> (r: &'static str)
    ensures
        r@ == "current.txt"@,
{
    "current.txt"
}

/// A file-system action that persists a change of the active-version file.
#[derive(Debug, Clone, PartialEq)]
pub enum ActiveFileAction {
    /// Write this content to the file, creating or overwriting it.
    Write { path: String, contents: String },
    /// Delete the file; its absence means no active version, so a missing
    /// file is no error.
    Remove { path: String },
}

/// The registry of installed toolchains: a toolchains root with one
/// subdirectory per version, a cache root for in-flight downloads, and the
/// active-version pointer read from disk once and kept in memory.
#[derive(Debug)]
pub struct ToolchainClient {
    pub toolchains_path: String,
    pub cache_path: String,
    pub current_version: Option<ToolchainVersion>,
}

impl ToolchainClient {
    /// Builds the registry state from its two directory roots and the raw
    /// content of the active-version file when it exists; the stored name
    /// is trimmed of surrounding whitespace.
    pub fn new(toolchains_path: String, cache_path: String, current_file: Option<&str>) -> (r:
        ToolchainClient)
        ensures
            r.toolchains_path == toolchains_path,
            r.cache_path == cache_path,
            match current_file {
                Some(content) => r.current_version matches Some(v) && v.name@ == trim_spec(
                    content@,
                ),
                None => r.current_version is None,
            },
    {
        let current_version = match current_file {
            Some(content) => Some(ToolchainVersion::named(trim_ascii(content))),
            None => None,
        };
        ToolchainClient { toolchains_path, cache_path, current_version }
    }

    /// The directory where the given version is, or would be, installed.
    pub fn install_path_for(&self, version: &ToolchainVersion) -> (r: String)
        ensures
            r@ == self.toolchains_path@ + "/"@ + version.name@,
    {
        path_join(self.toolchains_path.as_str(), version.name.as_str())
    }

    /// The path of the active-version file.
    pub fn current_file_path(&self) -> (r: String)
        ensures
            r@ == self.toolchains_path@ + "/"@ + "current.txt"@,
    {
        path_join(self.toolchains_path.as_str(), current_toolchain_filename())
    }

    /// The version of the active (default) toolchain.
    pub fn active_toolchain(&self) -> (r: Option<ToolchainVersion>)
        ensures
            r == self.current_version,
    {
        match &self.current_version {
            Some(v) => Some(v.clone()),
            None => None,
        }
    }

    /// Sets or clears the active version in memory and returns the
    /// file-system action that mirrors the change to disk.
    pub fn set_active_toolchain(&mut self, version: Option<ToolchainVersion>) -> (act:
        ActiveFileAction)
        ensures
            final(self).toolchains_path == old(self).toolchains_path,
            final(self).cache_path == old(self).cache_path,
            final(self).current_version == version,
            match version {
                Some(v) => act matches ActiveFileAction::Write { path, contents } && path@ == old(
                    self,
                ).toolchains_path@ + "/"@ + "current.txt"@ && contents == v.name,
                None => act matches ActiveFileAction::Remove { path } && path@ == old(
                    self,
                ).toolchains_path@ + "/"@ + "current.txt"@,
            },
    {
        let path = self.current_file_path();
        let act = match &version {
            Some(v) => ActiveFileAction::Write { path, contents: v.name.clone() },
            None => ActiveFileAction::Remove { path },
        };
        self.current_version = version;
        act
    }

    /// Clears the active pointer exactly when the removed version was the
    /// active one, returning the deletion of the pointer file to perform.
    pub fn clear_active_if_removed(&mut self, removed: &ToolchainVersion) -> (act: Option<
        ActiveFileAction,
    >)
        ensures
            final(self).toolchains_path == old(self).toolchains_path,
            final(self).cache_path == old(self).cache_path,
            ({
                let was_active = old(self).current_version matches Some(v) && v.name@
                    == removed.name@;
                if was_active {
                    &&& final(self).current_version is None
                    &&& act matches Some(a) && a matches ActiveFileAction::Remove { path }
                        && path@ == old(self).toolchains_path@ + "/"@ + "current.txt"@
                } else {
                    &&& final(self).current_version == old(self).current_version
                    &&& act is None
                }
            }),
    {
        let was_active = match &self.current_version {
            Some(v) => crate::strutil::str_eq(v.name.as_str(), removed.name.as_str()),
            None => false,
        };
        if was_active {
            let path = self.current_file_path();
            self.current_version = None;
            Some(ActiveFileAction::Remove { path })
        } else {
            None
        }
    }

    /// Activates the given version exactly when no version is active — the
    /// rule applied after a successful install — returning the write of the
    /// pointer file to perform.
    pub fn activate_if_none(&mut self, version: &ToolchainVersion) -> (act: Option<
        ActiveFileAction,
    >)
        ensures
            final(self).toolchains_path == old(self).toolchains_path,
            final(self).cache_path == old(self).cache_path,
            if old(self).current_version is None {
                &&& final(self).current_version matches Some(v) && v.name@ == version.name@
                &&& act matches Some(a) && a matches ActiveFileAction::Write { path, contents }
                    && path@ == old(self).toolchains_path@ + "/"@ + "current.txt"@ && contents@
                    == version.name@
            } else {
                &&& final(self).current_version == old(self).current_version
                &&& act is None
            },
    {
        match &self.current_version {
            Some(_) => None,
            None => {
                let path = self.current_file_path();
                self.current_version = Some(version.clone());
                Some(ActiveFileAction::Write { path, contents: version.name.clone() })
            },
        }
    }

    /// The installed versions: one per immediate subdirectory of the
    /// toolchains root, named by the directory's name, with no validation
    /// of the directory's contents.
    pub fn installed_versions(&self, dir_names: Vec<String>) -> (r: Vec<ToolchainVersion>)
        ensures
            r@.len() == dir_names@.len(),
            forall|k: int|
                0 <= k < r@.len() ==> (#[trigger] r@[k]).name@ == dir_names@[k]@,
    {
        let mut rest = dir_names;
        let ghost orig = rest@;
        let mut out: Vec<ToolchainVersion> = Vec::new();
        while rest.len() > 0
            invariant
                rest@.len() <= orig.len(),
                rest@ =~= orig.skip(orig.len() - rest@.len()),
                out@.len() == orig.len() - rest@.len(),
                forall|k: int|
                    0 <= k < out@.len() ==> (#[trigger] out@[k]).name@ == orig[k]@,
            decreases rest@.len(),
        {
            let ghost done = orig.len() - rest@.len();
            let name = rest.remove(0);
            proof {
                assert(name@ == orig[done as int]@);
                assert(rest@ =~= orig.skip(orig.len() - rest@.len()));
            }
            out.push(ToolchainVersion::named(name));
        }
        out
    }

    /// A handle onto the given version's install directory. The caller
    /// reports whether the directory is present; an absent one is the
    /// distinct not-installed error.
    pub fn toolchain(&self, version: &ToolchainVersion, exists: bool) -> (r: Result<
        InstalledToolchain,
        ToolchainError,
    >)
        ensures
            ({
                if exists {
                    r matches Ok(t) && t.path@ == self.toolchains_path@ + "/"@ + version.name@
                } else {
                    r matches Err(e) && (e matches ToolchainError::ToolchainNotInstalled {
                        version: v,
                    } && v.name@ == version.name@)
                }
            }),
    {
        if exists {
            Ok(InstalledToolchain::new(self.install_path_for(version)))
        } else {
            Err(ToolchainError::ToolchainNotInstalled { version: version.clone() })
        }
    }
}

/// The cache bytes reclaimed by a purge: the sizes of the cache entries,
/// summed with saturation at the counter's ceiling.
pub open spec fn sat_sum(sizes: Seq<u64>, i: int) -> int
    decreases i,
{
    if i <= 0 {
        0
    } else if sat_sum(sizes, i - 1) + sizes[i - 1] > u64::MAX {
        u64::MAX as int
    } else {
        sat_sum(sizes, i - 1) + sizes[i - 1]
    }
}

/// Sums the cache entries' sizes for the purge report, saturating at the
/// counter's ceiling.
pub fn purge_cache_total(entry_sizes: &Vec<u64>) -> (r: u64)
    ensures
        r == sat_sum(entry_sizes@, entry_sizes@.len() as int),
{
    let n = entry_sizes.len();
    let mut total: u64 = 0;
    let mut i: usize = 0;
    while i < n
        invariant
            i <= n,
            n == entry_sizes@.len(),
            total == sat_sum(entry_sizes@, i as int),
        decreases n - i,
    {
        let s = entry_sizes[i];
        if total > u64::MAX - s {
            total = u64::MAX;
        } else {
            total = total + s;
        }
        i += 1;
    }
    total
}

/// The filename component of a UTF-8 path, as the path library computes it.
pub uninterp spec fn utf8_file_name_of(path: Seq<char>) -> Option<Seq<char>>;

/// Relies on camino's Utf8Path::file_name: the path's last component — a
/// function of the path string alone — or nothing when the path ends in
/// `..` or names no component; a component is never empty and never holds
/// a separator.
#[verifier::external_body]
fn utf8_file_name(path: &str) -> (r: Option<String>)
    ensures
        match r {
            Some(n) => {
                &&& utf8_file_name_of(path@) == Some(n@)
                &&& n@.len() > 0
                &&& forall|i: int| 0 <= i < n@.len() ==> n@[i] != '/'
            },
            None => utf8_file_name_of(path@) is None,
        },
{
    camino::Utf8Path::new(path).file_name().map(|s| s.to_string())
}

/// The sibling URL from which an asset's expected digest is fetched.
pub fn checksum_url(asset_url: &str) -> (r: String)
    ensures
        r@ == asset_url@ + ".sha256"@,
{
    let mut s = asset_url.to_owned();
    s.append(".sha256");
    s
}

/// Where the install pipeline stands. Extraction is reachable only through
/// an accepted checksum.
#[derive(Debug, Clone, Copy, PartialEq, Eq, Structural)]
pub enum InstallPhase {
    /// Downloading the asset and its checksum, hashing the local file.
    Downloading,
    /// Checksum accepted; the archive may be extracted.
    Extracting,
    /// Extraction finished and the cached archive is released.
    Done,
    /// The checksum did not match; the cached file is condemned.
    Failed,
}

/// The verdict on a downloaded file's digest.
#[derive(Debug, Clone, PartialEq)]
pub enum ChecksumOutcome {
    /// Digest as expected: extraction may proceed.
    Accepted,
    /// Digest mismatch: the cached file at this path must be deleted, so a
    /// rerun starts clean instead of resuming corrupt bytes, and the error
    /// is surfaced.
    RejectedDelete { delete_path: String, error: ToolchainError },
}

/// One asset install: the derived paths and the phase gates of download →
/// verify → extract → clean up. The extraction strategy is dispatched once,
/// by the cached file's suffix.
#[derive(Debug)]
pub struct InstallJob {
    pub file_name: String,
    pub archive_destination: String,
    pub extract_location: String,
    pub checksum_url: String,
    pub asset_size: u64,
    pub phase: InstallPhase,
}

impl InstallJob {
    /// Plans the install of one asset: the cache path the download lands
    /// in, the directory the version extracts to, and the checksum sidecar
    /// URL. An asset whose name has no file-name component cannot be
    /// downloaded.
    pub fn new(client: &ToolchainClient, version: &ToolchainVersion, asset: &Asset) -> (r: Result<
        InstallJob,
        ToolchainError,
    >)
        ensures
            match r {
                Ok(job) => {
                    &&& utf8_file_name_of(asset.name@) matches Some(n) && job.file_name@ == n
                    &&& job.archive_destination@ == client.cache_path@ + "/"@
                        + utf8_file_name_of(asset.name@).unwrap()
                    &&& job.extract_location@ == client.toolchains_path@ + "/"@ + version.name@
                    &&& job.checksum_url@ == asset.url@ + ".sha256"@
                    &&& job.asset_size == asset.size
                    &&& job.phase is Downloading
                },
                Err(e) => {
                    &&& utf8_file_name_of(asset.name@) is None
                    &&& e matches ToolchainError::InvalidAssetName { name } && name@ == asset.name@
                },
            },
    {
        let file_name = match utf8_file_name(asset.name.as_str()) {
            Some(n) => n,
            None => {
                return Err(ToolchainError::InvalidAssetName { name: asset.name.clone() });
            },
        };
        let archive_destination = path_join(client.cache_path.as_str(), file_name.as_str());
        let extract_location = client.install_path_for(version);
        let url = checksum_url(asset.url.as_str());
        Ok(
            InstallJob {
                file_name,
                archive_destination,
                extract_location,
                checksum_url: url,
                asset_size: asset.size,
                phase: InstallPhase::Downloading,
            },
        )
    }

    /// The checksum gate: compares the computed digest against the first
    /// token of the fetched sidecar body, case-insensitively. Acceptance is
    /// the only door to extraction; a mismatch condemns the cached file to
    /// deletion and fails the install with the distinct mismatch error.
    pub fn verify_checksum(&mut self, actual_hex: &str, checksum_body: &str) -> (r:
        ChecksumOutcome)
        requires
            old(self).phase is Downloading,
        ensures
            final(self).file_name == old(self).file_name,
            final(self).archive_destination == old(self).archive_destination,
            final(self).extract_location == old(self).extract_location,
            final(self).checksum_url == old(self).checksum_url,
            final(self).asset_size == old(self).asset_size,
            ({
                let expected = first_token_spec(checksum_body@);
                if eq_ignore_case_spec(actual_hex@, expected) {
                    r == ChecksumOutcome::Accepted && final(self).phase is Extracting
                } else {
                    &&& r matches ChecksumOutcome::RejectedDelete { delete_path, error }
                    &&& delete_path@ == old(self).archive_destination@
                    &&& error matches ToolchainError::ChecksumMismatch { expected: e, actual: a }
                        && e@ == expected && a@ == actual_hex@
                    &&& final(self).phase is Failed
                }
            }),
    {
        let expected = first_token(checksum_body);
        if checksums_match(actual_hex, expected.as_str()) {
            self.phase = InstallPhase::Extracting;
            ChecksumOutcome::Accepted
        } else {
            self.phase = InstallPhase::Failed;
            ChecksumOutcome::RejectedDelete {
                delete_path: self.archive_destination.clone(),
                error: ToolchainError::ChecksumMismatch {
                    expected,
                    actual: actual_hex.to_owned(),
                },
            }
        }
    }

    /// Opens the extraction phase — reachable only after an accepted
    /// checksum: the begin event, and the existing destination directory to
    /// move to the trash first, as a safety net against losing a working
    /// install should extraction fail.
    pub fn begin_extract(&self, destination_exists: bool) -> (r: (InstallState, Option<String>))
        requires
            self.phase is Extracting,
        ensures
            r.0 == InstallState::ExtractBegin,
            destination_exists ==> (r.1 matches Some(p) && p@ == self.extract_location@),
            !destination_exists ==> r.1 is None,
    {
        let trash = if destination_exists {
            Some(self.extract_location.clone())
        } else {
            None
        };
        (InstallState::ExtractBegin, trash)
    }

    /// The extraction strategy, dispatched once by the cached file's
    /// suffix. An unsupported suffix is a programming-contract violation:
    /// asset selection admits only the supported ones.
    pub fn extraction_kind(&self) -> (r: ArchiveKind)
        requires
            self.phase is Extracting,
            archive_kind_of(self.file_name@) is Some,
        ensures
            r == archive_kind_of(self.file_name@).unwrap(),
    {
        match archive_kind(self.file_name.as_str()) {
            Some(k) => k,
            None => {
                proof {
                    assert(false);
                }
                ArchiveKind::Zip
            },
        }
    }

    /// Closes the pipeline after extraction: the clean-up and done events,
    /// and the cached archive file to delete.
    pub fn finish_extract(&mut self, events: &mut Vec<InstallState>) -> (delete: String)
        requires
            old(self).phase is Extracting,
        ensures
            final(self).phase is Done,
            final(self).archive_destination == old(self).archive_destination,
            final(self).extract_location == old(self).extract_location,
            delete@ == old(self).archive_destination@,
            final(events)@ == old(events)@ + seq![
                InstallState::ExtractCleanUp,
                InstallState::ExtractDone,
            ],
    {
        events.push(InstallState::ExtractCleanUp);
        events.push(InstallState::ExtractDone);
        self.phase = InstallPhase::Done;
        proof {
            assert(events@ =~= old(events)@ + seq![
                InstallState::ExtractCleanUp,
                InstallState::ExtractDone,
            ]);
        }
        self.archive_destination.clone()
    }
}

} // verus!
