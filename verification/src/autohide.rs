use vstd::prelude::*;

verus! {

/// Delay, in seconds, between a pointer movement during fullscreen and the
/// callback that hides the toolbar and cursor again.
pub const AUTOHIDE_DELAY_SECONDS: u64 = 5;

/// Registration state of the pointer-motion observer that drives the
/// autohide behaviour.
///
/// `supported` is the capability flag chosen at startup: only platform
/// families whose toolkit delivers motion-notify events ever arm the
/// observer. `observer` holds the deregistration handle the toolkit returned,
/// and is `Some` for at most one registration at a time.
#[derive(Clone, Copy, PartialEq, Eq, Debug)]
pub struct AutohideToolbar {
    pub supported: bool,
    pub observer: Option<u64>,
}

impl AutohideToolbar {
    /// True while a pointer-motion observer is registered.
    pub open spec fn is_armed(self) -> bool {
        self.observer is Some
    }

    /// A disarmed observer slot for a platform with the given capability.
    pub fn new(supported: bool) -> (r: AutohideToolbar)
        ensures
            !r.is_armed(),
            r.supported == supported,
    {
        AutohideToolbar { supported, observer: None }
    }

    /// Records the handle of a freshly registered observer. Arming twice
    /// without disarming would leak a registration, so a live handle may
    /// never be overwritten.
    pub fn arm(&mut self, observer: u64)
        requires
            old(self).supported,
            !old(self).is_armed(),
        ensures
            final(self).observer == Some(observer),
            final(self).supported == old(self).supported,
    {
        self.observer = Some(observer);
    }

    /// Hands the registered handle out for deregistration and empties the
    /// slot. Returns `None` when nothing is armed, so disarming twice is a
    /// no-op.
    pub fn disarm(&mut self) -> (r: Option<u64>)
        ensures
            final(self).observer is None,
            final(self).supported == old(self).supported,
            r == old(self).observer,
    {
        let r = self.observer;
        self.observer = None;
        r
    }
}

} // verus!
