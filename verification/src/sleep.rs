use vstd::prelude::*;

verus! {

/// Tracks the display-sleep-inhibition token for the single window.
///
/// The platform call that acquires or releases inhibition lives outside this
/// library; this coordinator owns the bookkeeping that keeps those calls
/// balanced: at most one token is ever recorded, a token is recorded only
/// while none is outstanding, and taking the token for release empties the
/// slot, so a second release attempt has nothing to act on.
#[derive(Clone, Copy, PartialEq, Eq, Debug)]
pub struct SleepInhibitor {
    pub token: Option<u64>,
}

impl SleepInhibitor {
    /// True while an inhibition token is outstanding.
    pub open spec fn is_live(self) -> bool {
        self.token is Some
    }

    /// A coordinator with no outstanding token.
    pub fn new() -> (r: SleepInhibitor)
        ensures
            !r.is_live(),
    {
        SleepInhibitor { token: None }
    }

    /// Records the token the platform handed back for this session.
    /// Refusing to overwrite a live token is what keeps one `acquire`
    /// matched by exactly one `release`.
    pub fn store(&mut self, token: u64)
        requires
            !old(self).is_live(),
        ensures
            final(self).token == Some(token),
    {
        self.token = Some(token);
    }

    /// Hands the outstanding token out for release and empties the slot.
    /// Returns `None` when no token is live, so releasing twice is a no-op.
    pub fn take(&mut self) -> (r: Option<u64>)
        ensures
            final(self).token is None,
            r == old(self).token,
    {
        let r = self.token;
        self.token = None;
        r
    }
}

} // verus!
