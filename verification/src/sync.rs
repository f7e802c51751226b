//! The frame synchroniser: when the display may be written.

use vstd::prelude::*;

verus! {

/// Where the loop stands with respect to vertical blank.
///
/// Display memory may be written only while vertical blank is active, so a
/// commit is permitted in `VBlankActive` alone. The hardware signal leads
/// there; the commit leads back. There is no terminal state.
#[derive(Clone, Copy, Debug, PartialEq, Eq, Structural)]
pub enum SyncState {
    WaitingForVBlank,
    VBlankActive,
}

impl SyncState {
    /// The state after the hardware has signalled vertical blank.
    pub open spec fn signalled(self) -> SyncState {
        SyncState::VBlankActive
    }

    /// Whether a commit is permitted.
    pub open spec fn permits_commit(self) -> bool {
        self == SyncState::VBlankActive
    }

    /// The state after a commit was asked for: the loop waits for the next
    /// vertical blank, whether or not the commit was permitted.
    pub open spec fn settled(self) -> SyncState {
        SyncState::WaitingForVBlank
    }

    /// The state in which the loop starts.
    pub fn new() -> (s: SyncState)
        ensures
            s == SyncState::WaitingForVBlank,
        no_unwind
    {
        SyncState::WaitingForVBlank
    }

    /// The hardware has signalled vertical blank, by the status flag or by the
    /// interrupt.
    pub fn on_vblank(self) -> (next: SyncState)
        ensures
            next == self.signalled(),
        no_unwind
    {
        SyncState::VBlankActive
    }

    /// Whether a commit is permitted.
    pub fn commit_permitted(self) -> (r: bool)
        ensures
            r == self.permits_commit(),
        no_unwind
    {
        match self {
            SyncState::VBlankActive => true,
            SyncState::WaitingForVBlank => false,
        }
    }

    /// The commit has been performed, or refused.
    pub fn on_commit(self) -> (next: SyncState)
        ensures
            next == self.settled(),
        no_unwind
    {
        SyncState::WaitingForVBlank
    }
}

/// Each signal permits one commit: after the signal a commit is permitted, and
/// after that commit none is until the next signal.
pub proof fn one_commit_per_signal(s: SyncState)
    ensures
        s.signalled().permits_commit(),
        !s.signalled().settled().permits_commit(),
        !s.settled().permits_commit(),
{
}

} // verus!
