//! The decisions of the orchestration scope's alert-wait loop: poll until the
//! alert is seen, then run the teardown exactly once.
use vstd::prelude::*;

verus! {

/// What the alert-wait loop does after one read of the alert flag.
#[derive(Debug, Clone, Copy, PartialEq, Eq, Structural)]
pub enum ScopeAction {
    /// No alert yet: sleep one interval and read again.
    Sleep,
    /// The alert was seen: run the teardown now.
    RunOnAlert,
    /// The teardown has run: return.
    Return,
}

/// The state of the alert-wait loop.
#[derive(Debug, Clone, Copy, PartialEq, Eq, Structural)]
pub struct ScopeMonitor {
    /// Whether the teardown has been started.
    pub torn_down: bool,
}

/// The action owed after reading `alert`.
pub open spec fn scope_action(torn_down: bool, alert: bool) -> ScopeAction {
    if torn_down {
        ScopeAction::Return
    } else if alert {
        ScopeAction::RunOnAlert
    } else {
        ScopeAction::Sleep
    }
}

/// How many times the teardown runs when the loop, from state `torn_down`,
/// reads the values `reads` of the alert flag.
pub open spec fn teardowns(torn_down: bool, reads: Seq<bool>) -> nat
    decreases reads.len(),
{
    if reads.len() == 0 {
        0
    } else {
        let a = scope_action(torn_down, reads[0]);
        let next = torn_down || reads[0];
        (if a == ScopeAction::RunOnAlert { 1nat } else { 0nat }) + teardowns(next, reads.drop_first())
    }
}

impl ScopeMonitor {
    /// A loop that has not torn down yet.
    pub fn new() -> (r: ScopeMonitor)
        ensures
            !r.torn_down,
    {
        ScopeMonitor { torn_down: false }
    }

    /// Decides after one read of the alert flag.
    pub fn poll(&mut self, alert: bool) -> (r: ScopeAction)
        ensures
            r == scope_action(old(self).torn_down, alert),
            final(self).torn_down == (old(self).torn_down || alert),
    {
        if self.torn_down {
            ScopeAction::Return
        } else if alert {
            self.torn_down = true;
            ScopeAction::RunOnAlert
        } else {
            ScopeAction::Sleep
        }
    }
}

/// The teardown runs at most once, however many reads see the alert; and it
/// runs exactly once when a loop that has not torn down yet sees the alert.
pub proof fn lemma_teardown_once(torn_down: bool, reads: Seq<bool>)
    ensures
        teardowns(torn_down, reads) <= 1,
        torn_down ==> teardowns(torn_down, reads) == 0,
        !torn_down && (exists|i: int| 0 <= i < reads.len() && reads[i]) ==> teardowns(torn_down, reads) == 1,
    decreases reads.len(),
{
    if reads.len() > 0 {
        lemma_teardown_once(torn_down || reads[0], reads.drop_first());
        if !torn_down && !reads[0] && (exists|i: int| 0 <= i < reads.len() && reads[i]) {
            let i = choose|i: int| 0 <= i < reads.len() && reads[i];
            assert(reads.drop_first()[i - 1]);
        }
    }
}

} // verus!
