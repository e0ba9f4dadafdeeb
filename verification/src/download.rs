//! Resumable download planning: decide from the local file's length and the
//! asset's declared size whether to skip, restart, or resume with a byte
//! range, and account the streamed bytes for progress reporting.
use vstd::prelude::*;

use crate::progress::InstallState;
use crate::strutil::dec_str_of;
use crate::strutil::u64_to_dec;

verus! {

/// What the network has to supply: nothing, or one byte range.
#[derive(Debug, Clone, Copy, PartialEq, Eq, Structural)]
pub enum DownloadAction {
    /// The local file already holds the full asset body; no connection is
    /// opened.
    AlreadyComplete,
    /// Request bytes `first_byte..=last_byte` and append them.
    Fetch { first_byte: u64, last_byte: u64 },
}

/// The plan for bringing the local file to the full asset body.
#[derive(Debug, Clone, Copy, PartialEq, Eq, Structural)]
pub struct DownloadPlan {
    /// A local file longer than the asset is corrupt leftover: truncate it
    /// to zero before acting.
    pub truncate_first: bool,
    pub action: DownloadAction,
}

/// The planned response to a local file of `current_len` bytes standing in
/// for an asset of `asset_size` bytes.
pub open spec fn download_plan_spec(current_len: u64, asset_size: u64) -> DownloadPlan {
    let truncate_first = current_len > asset_size;
    let effective_len: u64 = if current_len > asset_size {
        0
    } else {
        current_len
    };
    DownloadPlan {
        truncate_first,
        action: if effective_len == asset_size {
            DownloadAction::AlreadyComplete
        } else {
            DownloadAction::Fetch {
                first_byte: effective_len,
                last_byte: (asset_size - 1) as u64,
            }
        },
    }
}

/// Decides how to complete the download: an already-complete file
/// short-circuits, an oversized file is truncated and restarted, anything
/// else resumes from its current length with a range request.
pub fn plan_download(current_len: u64, asset_size: u64) -> (p: DownloadPlan)
    ensures
        p == download_plan_spec(current_len, asset_size),
        current_len > asset_size ==> p.truncate_first,
{
    if current_len > asset_size {
        if asset_size == 0 {
            DownloadPlan { truncate_first: true, action: DownloadAction::AlreadyComplete }
        } else {
            DownloadPlan {
                truncate_first: true,
                action: DownloadAction::Fetch { first_byte: 0, last_byte: asset_size - 1 },
            }
        }
    } else if current_len == asset_size {
        DownloadPlan { truncate_first: false, action: DownloadAction::AlreadyComplete }
    } else {
        DownloadPlan {
            truncate_first: false,
            action: DownloadAction::Fetch { first_byte: current_len, last_byte: asset_size - 1 },
        }
    }
}

/// Resume correctness: whatever length the local file has, following the
/// plan yields exactly the full asset body. The file keeps its first `kept`
/// bytes (none after a truncation), which are a prefix of the asset; the
/// fetched range supplies the rest, or nothing was missing.
pub proof fn lemma_download_plan_completes(full: Seq<u8>, current_len: u64)
    requires
        full.len() <= u64::MAX,
    ensures
        ({
            let plan = download_plan_spec(current_len, full.len() as u64);
            let kept: int = if plan.truncate_first {
                0
            } else {
                current_len as int
            };
            &&& kept <= full.len()
            &&& (plan.action is AlreadyComplete ==> full.take(kept) == full)
            &&& (plan.action matches DownloadAction::Fetch { first_byte, last_byte } ==> {
                &&& first_byte == kept
                &&& last_byte + 1 == full.len()
                &&& full.take(kept) + full.subrange(first_byte as int, last_byte + 1) == full
            })
        }),
{
    let plan = download_plan_spec(current_len, full.len() as u64);
    let kept: int = if plan.truncate_first {
        0
    } else {
        current_len as int
    };
    if plan.action is AlreadyComplete {
        assert(full.take(kept) =~= full);
    } else {
        assert(full.take(kept) + full.subrange(kept, full.len() as int) =~= full);
    }
}

/// The value of the HTTP range header requesting bytes
/// `first_byte..=last_byte`.
pub fn range_header_value(first_byte: u64, last_byte: u64) -> (r: String)
    ensures
        r@ == "bytes="@ + dec_str_of(first_byte as nat) + "-"@ + dec_str_of(last_byte as nat),
{
    let mut s = String::new();
    s.append("bytes=");
    let first_str = u64_to_dec(first_byte);
    s.append(first_str.as_str());
    s.append("-");
    let last_str = u64_to_dec(last_byte);
    s.append(last_str.as_str());
    proof {
        assert(s@ =~= "bytes="@ + dec_str_of(first_byte as nat) + "-"@ + dec_str_of(
            last_byte as nat,
        ));
    }
    s
}

/// Byte accounting for one streamed download, driving the progress events.
pub struct DownloadSession {
    pub asset_size: u64,
    pub bytes_read: u64,
}

impl DownloadSession {
    /// Starts accounting a download of `asset_size` bytes of which
    /// `current_len` are already present, returning the begin event.
    pub fn begin(asset_size: u64, current_len: u64) -> (r: (DownloadSession, InstallState))
        ensures
            r.0 == (DownloadSession { asset_size, bytes_read: current_len }),
            r.1 == (InstallState::DownloadBegin { asset_size, bytes_read: current_len }),
    {
        (
            DownloadSession { asset_size, bytes_read: current_len },
            InstallState::DownloadBegin { asset_size, bytes_read: current_len },
        )
    }

    /// Accounts one appended chunk, returning the progress event.
    pub fn on_chunk(&mut self, chunk_len: usize) -> (ev: InstallState)
        requires
            old(self).bytes_read + chunk_len <= u64::MAX,
        ensures
            final(self).asset_size == old(self).asset_size,
            final(self).bytes_read == old(self).bytes_read + chunk_len,
            ev == (InstallState::Download { bytes_read: final(self).bytes_read }),
    {
        self.bytes_read = self.bytes_read + chunk_len as u64;
        InstallState::Download { bytes_read: self.bytes_read }
    }

    /// The event that closes the download phase.
    pub fn finish(&self) -> (ev: InstallState)
        ensures
            ev == InstallState::DownloadFinish,
    {
        InstallState::DownloadFinish
    }
}

} // verus!
