//! The one-time platform setup decision.
//!
//! Global engine platform state must be set up exactly once in the process,
//! before the first engine instance is constructed, however many bridges are
//! built and from however many threads. The setup itself is opaque outside
//! work; the decision — does this construction perform the setup, or has it
//! already happened? — stands here. The embedding layer consults one
//! process-wide `PlatformOnce` under its once-only primitive.

use vstd::prelude::*;

verus! {

/// Whether the process-wide engine platform setup has already run.
pub struct PlatformOnce {
    done: bool,
}

impl PlatformOnce {
    /// Whether the setup has run.
    pub closed spec fn initialized(&self) -> bool {
        self.done
    }

    /// Before any bridge exists: nothing set up yet.
    pub fn new() -> (p: PlatformOnce)
        ensures
            !p.initialized(),
    {
        PlatformOnce { done: false }
    }

    /// Decide whether the caller must perform the global setup now: true
    /// exactly on the first call, and afterwards the platform counts as
    /// initialized for good — the setup is never re-entered.
    pub fn acquire(&mut self) -> (do_setup: bool)
        ensures
            do_setup == !old(self).initialized(),
            final(self).initialized(),
    {
        let first = !self.done;
        self.done = true;
        first
    }
}

} // verus!
