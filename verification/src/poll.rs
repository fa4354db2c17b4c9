//! Poll & publish decision loop.
//!
//! Each cycle decodes a fresh status snapshot and compares it
//! structurally to the previous one.  A changed snapshot is published
//! and remembered; an unchanged one bumps the staleness counter.  Once
//! more consecutive unchanged cycles accumulate than the budget allows,
//! the session terminates with a fatal staleness decision, by design, so
//! a supervising process can restart it and re-establish the link.
//!
//! The transport shell runs the actual loop: it performs the reads, the
//! publishes and the sleeps, and feeds each decoded snapshot through
//! [`PollSession::on_status`].

use vstd::prelude::*;
use crate::high_level::MapInfo;

verus! {

/// What one poll cycle decides.
#[derive(Debug, PartialEq, Eq, Copy, Clone, Structural)]
pub enum PollDecision {
    /// The snapshot changed: publish it.
    Publish,
    /// The snapshot is unchanged and the staleness budget still holds.
    Skip,
    /// More consecutive unchanged polls than the budget allows: the
    /// session is over and needs an external restart.
    Stale,
}

/// The state carried between poll cycles.
pub struct PollSession {
    /// The last snapshot handed to the publisher; the all-zero snapshot
    /// before anything was published.
    pub prev_map_info: MapInfo,
    /// Consecutive polls whose snapshot equalled the previous one.
    pub consecutive_same_reads: u64,
    /// How many consecutive unchanged polls are tolerated.
    pub max_consecutive_reads: u64,
}

/// The session after one more unchanged poll: the counter advances, the
/// rest stays.
pub open spec fn spec_unchanged_step(s: PollSession) -> PollSession {
    PollSession {
        consecutive_same_reads: if s.consecutive_same_reads < u64::MAX {
            (s.consecutive_same_reads + 1) as u64
        } else {
            s.consecutive_same_reads
        },
        ..s
    }
}

/// What an unchanged poll decides: stale as soon as the advanced counter
/// exceeds the budget.
pub open spec fn spec_unchanged_decision(s: PollSession) -> PollDecision {
    if spec_unchanged_step(s).consecutive_same_reads > s.max_consecutive_reads {
        PollDecision::Stale
    } else {
        PollDecision::Skip
    }
}

/// The session after `n` consecutive unchanged polls.
pub open spec fn spec_after_unchanged(s: PollSession, n: nat) -> PollSession
    decreases n,
{
    if n == 0 {
        s
    } else {
        spec_unchanged_step(spec_after_unchanged(s, (n - 1) as nat))
    }
}

/// Staleness law: starting from a freshly published snapshot, the n-th
/// consecutive unchanged poll leaves the counter at n and is judged
/// stale exactly when n exceeds the budget.
pub proof fn lemma_staleness_watchdog(s: PollSession, n: nat)
    requires
        s.consecutive_same_reads == 0,
        1 <= n <= u64::MAX,
    ensures
        spec_after_unchanged(s, n).consecutive_same_reads == n,
        spec_after_unchanged(s, n).max_consecutive_reads == s.max_consecutive_reads,
        spec_unchanged_decision(spec_after_unchanged(s, (n - 1) as nat)) == (
        if n > s.max_consecutive_reads {
            PollDecision::Stale
        } else {
            PollDecision::Skip
        }),
    decreases n,
{
    if n == 1 {
    } else {
        lemma_staleness_watchdog(s, (n - 1) as nat);
    }
}

impl PollSession {
    /// A fresh session for the given poll interval in seconds: nothing
    /// published yet, and a staleness budget of 300 divided by the
    /// interval.
    pub fn new(interval_seconds: u64) -> (r: Self)
        requires
            1 <= interval_seconds,
        ensures
            r.prev_map_info == MapInfo::spec_default(),
            r.consecutive_same_reads == 0,
            r.max_consecutive_reads == 300 as int / interval_seconds as int,
    {
        PollSession {
            prev_map_info: MapInfo::default(),
            consecutive_same_reads: 0,
            max_consecutive_reads: 300 / interval_seconds,
        }
    }

    /// Judges one decoded snapshot against the previous cycle.
    ///
    /// A changed snapshot is to be published: it becomes the previous
    /// snapshot and the staleness counter resets.  An unchanged one
    /// advances the counter, and the session is stale as soon as the
    /// counter exceeds the budget.
    pub fn on_status(&mut self, map_info: MapInfo) -> (r: PollDecision)
        ensures
            map_info != old(self).prev_map_info ==> r == PollDecision::Publish && *final(self)
                == (PollSession {
                prev_map_info: map_info,
                consecutive_same_reads: 0,
                ..*old(self)
            }),
            map_info == old(self).prev_map_info ==> r == spec_unchanged_decision(*old(self))
                && *final(self) == spec_unchanged_step(*old(self)),
    {
        if map_info != self.prev_map_info {
            self.prev_map_info = map_info;
            self.consecutive_same_reads = 0;
            PollDecision::Publish
        } else {
            if self.consecutive_same_reads < u64::MAX {
                self.consecutive_same_reads = self.consecutive_same_reads + 1;
            }
            if self.consecutive_same_reads > self.max_consecutive_reads {
                PollDecision::Stale
            } else {
                PollDecision::Skip
            }
        }
    }
}

} // verus!
