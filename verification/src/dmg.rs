//! Disk-image extraction policy. Mounting and unmounting are the operating
//! system's work; this module fixes the decisions around them: the unmount
//! retry loop, and the guarantee that a mount never dangles because a
//! deferred force-detach backs every exit path.
use vstd::prelude::*;

use crate::errors::ExtractError;
use crate::errors::ToolchainError;

verus! {

/// How often a clean unmount is attempted before giving up.
pub const DMG_UNMOUNT_RETRIES: u8 = 10;

/// How long to wait between unmount attempts, in milliseconds.
pub const DMG_UNMOUNT_WAIT_MS: u64 = 500;

/// What to do after one unmount attempt.
#[derive(Debug, Clone, Copy, PartialEq, Eq, Structural)]
pub enum UnmountStep {
    /// The image unmounted cleanly; the deferred force-detach is disarmed.
    Done,
    /// Wait this long, then attempt again.
    RetryAfterWait { wait_ms: u64 },
    /// Give up on clean unmounting; the deferred force-detach is the
    /// backstop. Exhausted retries are deliberately not an error: the
    /// extraction itself succeeded, and the force-detach guarantees no
    /// dangling mount.
    ForceDetach,
}

/// The retry budget of the clean-unmount loop.
pub struct DmgUnmountRetry {
    pub retries_left: u8,
}

impl DmgUnmountRetry {
    pub fn new() -> (r: DmgUnmountRetry)
        ensures
            r.retries_left == DMG_UNMOUNT_RETRIES,
    {
        DmgUnmountRetry { retries_left: DMG_UNMOUNT_RETRIES }
    }

    /// Decides the next step from one unmount attempt's outcome: success
    /// ends the loop, a failure waits and retries while the budget lasts,
    /// and the final failure falls back to the force-detach.
    pub fn on_result(&mut self, succeeded: bool) -> (r: UnmountStep)
        requires
            old(self).retries_left > 0,
        ensures
            final(self).retries_left == old(self).retries_left - 1,
            succeeded ==> r == UnmountStep::Done,
            !succeeded && old(self).retries_left > 1 ==> r == (UnmountStep::RetryAfterWait {
                wait_ms: DMG_UNMOUNT_WAIT_MS,
            }),
            !succeeded && old(self).retries_left == 1 ==> r == UnmountStep::ForceDetach,
    {
        self.retries_left = self.retries_left - 1;
        if succeeded {
            UnmountStep::Done
        } else if self.retries_left > 0 {
            UnmountStep::RetryAfterWait { wait_ms: DMG_UNMOUNT_WAIT_MS }
        } else {
            UnmountStep::ForceDetach
        }
    }
}

/// Disk-image extraction on a platform without a mount driver: always the
/// distinct unsupported-format error, before any file is touched.
pub fn extract_dmg(_dmg_path: &str, _destination: &str) -> (r: Result<(), ToolchainError>)
    ensures
        r == Err::<(), ToolchainError>(ToolchainError::Extract(ExtractError::DmgNotSupported)),
{
    Err(ToolchainError::Extract(ExtractError::DmgNotSupported))
}

} // verus!
