//! The refresh gate: decides from the shared last-refresh instant and the
//! current time whether a new aggregation is due, and claims the refresh slot
//! before the aggregation runs ("claim-then-fetch").

use vstd::prelude::*;

verus! {

/// Minimum interval between two accepted refreshes: three minutes, in
/// milliseconds.
pub const REFRESH_INTERVAL_MILLIS: i64 = 180_000;

/// A refresh falls due once `now` has reached `last_refresh` plus the fixed
/// interval.
pub open spec fn refresh_due(last_refresh: int, now: int) -> bool {
    now >= last_refresh + REFRESH_INTERVAL_MILLIS as int
}

/// The shared refresh state: the instant (Unix milliseconds) of the last
/// claimed refresh. It starts at the epoch, which forces an immediate first
/// refresh.
pub struct RefreshGate {
    last_refresh: i64,
}

impl RefreshGate {
    /// The instant of the last claimed refresh.
    pub closed spec fn last_refresh(&self) -> int {
        self.last_refresh as int
    }

    pub fn new() -> (r: Self)
        ensures
            r.last_refresh() == 0,
    {
        RefreshGate { last_refresh: 0 }
    }

    /// The instant of the last claimed refresh, as a plain value.
    pub fn last_refresh_millis(&self) -> (r: i64)
        ensures
            r == self.last_refresh(),
    {
        self.last_refresh
    }

    /// Is a refresh due at `now`?
    pub fn should_refresh(&self, now: i64) -> (r: bool)
        ensures
            r == refresh_due(self.last_refresh(), now as int),
    {
        (now as i128) >= (self.last_refresh as i128) + (REFRESH_INTERVAL_MILLIS as i128)
    }

    /// Stamp the slot with `now`; done before the expensive aggregation runs,
    /// so a slow aggregation does not re-trigger under sustained read load.
    pub fn claim(&mut self, now: i64)
        ensures
            final(self).last_refresh() == now,
    {
        self.last_refresh = now;
    }

    /// The check and the claim folded into one step, so that no second caller
    /// can observe an open slot between them.
    pub fn check_and_claim(&mut self, now: i64) -> (due: bool)
        ensures
            due == refresh_due(old(self).last_refresh(), now as int),
            due ==> final(self).last_refresh() == now,
            !due ==> final(self).last_refresh() == old(self).last_refresh(),
    {
        if self.should_refresh(now) {
            self.last_refresh = now;
            true
        } else {
            false
        }
    }
}

/// Immediately after a claim at `claim_time`, no refresh falls due again
/// until the full interval has elapsed.
pub proof fn lemma_quiet_after_claim(claim_time: int, later: int)
    requires
        later < claim_time + REFRESH_INTERVAL_MILLIS as int,
    ensures
        !refresh_due(claim_time, later),
{
}

} // verus!
