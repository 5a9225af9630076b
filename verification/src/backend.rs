//! The pump thread's own lifecycle: the state machine every backend's
//! event-pump thread walks through, from installation to unwind.
//!
//! The platform calls are made outside this crate, on the pump thread
//! itself — a hook must be installed and pumped on one and the same
//! thread — but the order of those calls and the handling of the hook
//! handle are decided here. The contracts pin the unwind discipline: an
//! installation failure still enters the pump (so a stop signal can end
//! the thread cleanly instead of crashing anything), and the handle is
//! released exactly once, precisely when an installation succeeded.

use vstd::prelude::*;

verus! {

/// Where a pump thread stands in its life.
#[derive(Clone, Copy, PartialEq, Eq, Structural, Debug)]
pub enum PumpPhase {
    /// The thread has been spawned and is installing its hook.
    Installing,
    /// The thread sits in its pump loop, waiting for events or for the
    /// quit signal.
    Pumping,
    /// The quit signal arrived; the thread has unwound. Terminal.
    Done,
}

/// The lifecycle of one pump thread: its phase, whether its hook was
/// installed, and whether the hook handle has been released.
#[derive(Clone, Copy, PartialEq, Eq, Structural, Debug)]
pub struct PumpLifecycle {
    pub phase: PumpPhase,
    pub hook_installed: bool,
    pub hook_released: bool,
}

impl PumpLifecycle {
    /// What every reachable lifecycle state satisfies: a handle can
    /// only be released after an installation, only during unwind, and
    /// nothing is installed or released before installation finishes.
    pub open spec fn wf(self) -> bool {
        &&& (self.phase == PumpPhase::Installing ==> !self.hook_installed && !self.hook_released)
        &&& (self.hook_released ==> self.hook_installed && self.phase == PumpPhase::Done)
        &&& (self.phase == PumpPhase::Done && self.hook_installed ==> self.hook_released)
    }

    /// A freshly spawned pump thread: installing, nothing held yet.
    pub fn spawn() -> (p: PumpLifecycle)
        ensures
            p.wf(),
            p.phase == PumpPhase::Installing,
            !p.hook_installed,
            !p.hook_released,
    {
        PumpLifecycle { phase: PumpPhase::Installing, hook_installed: false, hook_released: false }
    }

    /// Records the outcome of the installation attempt. Success keeps
    /// the handle; failure keeps nothing — but either way the thread
    /// enters its pump loop, so a later stop signal can unwind it
    /// instead of leaving a thread nobody can end.
    pub fn install_finished(&mut self, ok: bool)
        requires
            old(self).wf(),
            old(self).phase == PumpPhase::Installing,
        ensures
            final(self).wf(),
            final(self).phase == PumpPhase::Pumping,
            final(self).hook_installed == ok,
            !final(self).hook_released,
    {
        self.phase = PumpPhase::Pumping;
        self.hook_installed = ok;
    }

    /// Unwinds on the quit signal: the pump loop exits and the hook
    /// handle is released if and only if one was installed — exactly
    /// once, on this same thread. The returned flag tells the platform
    /// side whether an uninstall call is owed.
    pub fn quit_received(&mut self) -> (release: bool)
        requires
            old(self).wf(),
            old(self).phase == PumpPhase::Pumping,
        ensures
            final(self).wf(),
            final(self).phase == PumpPhase::Done,
            release == old(self).hook_installed,
            final(self).hook_released == old(self).hook_installed,
    {
        self.phase = PumpPhase::Done;
        if self.hook_installed {
            self.hook_released = true;
            true
        } else {
            false
        }
    }
}

/// Law: no leak and no double release. Every transition above
/// preserves well-formedness, so every pump thread that reaches its
/// terminal phase has released its hook handle exactly when it held
/// one: a well-formed terminal state releases if and only if it
/// installed, and a handle is never released while the pump still
/// runs.
pub proof fn lemma_terminal_release(p: PumpLifecycle)
    requires
        p.wf(),
    ensures
        p.phase == PumpPhase::Done ==> (p.hook_released <==> p.hook_installed),
        p.phase != PumpPhase::Done ==> !p.hook_released,
{
}

} // verus!
