//! The current recommended tip, refreshed from outside and read at build time.
use vstd::prelude::*;

verus! {

/// The recommended tip in lamports and when it was last refreshed (seconds
/// since the Unix epoch). A stale value stays usable.
#[derive(Debug, Clone, Copy, PartialEq, Eq)]
pub struct TipCache {
    pub tip_lamports: u64,
    pub refreshed_at: u64,
}

impl TipCache {
    pub fn new(tip_lamports: u64, refreshed_at: u64) -> (r: Self)
        ensures
            r.tip_lamports == tip_lamports,
            r.refreshed_at == refreshed_at,
    {
        TipCache { tip_lamports, refreshed_at }
    }

    /// The current tip, however old.
    pub fn get_tip(&self) -> (r: u64)
        ensures
            r == self.tip_lamports,
    {
        self.tip_lamports
    }

    /// Stores a newer estimate.
    pub fn refresh(&mut self, tip_lamports: u64, now: u64)
        ensures
            final(self).tip_lamports == tip_lamports,
            final(self).refreshed_at == now,
    {
        self.tip_lamports = tip_lamports;
        self.refreshed_at = now;
    }
}

} // verus!
