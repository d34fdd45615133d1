//! Decisions about one supervised child: how its exit is classified, what a
//! watcher does after each poll, and how termination escalates.
use vstd::prelude::*;

verus! {

/// Polling interval of every wait loop, in milliseconds.
pub const SPIN_INTERVAL_MS: u64 = 333;

/// Grace period a child gets after the terminate signal, in milliseconds.
pub const TERM_GRACETIME_MS: u64 = 2000;

/// How a child is expected to end, fixed when it is spawned.
#[derive(Debug, Clone, Copy, PartialEq, Eq, Structural)]
pub enum ExpectedExit {
    /// A daemon: any exit that we did not cause is an anomaly.
    NeverExits,
    /// A one-shot command that must exit with this code.
    ExitsWithCode(i32),
}

impl ExpectedExit {
    /// The policy for an expected exit status, where `None` marks a daemon.
    pub fn from_expected_status(expected: Option<i32>) -> (r: ExpectedExit)
        ensures
            r == match expected {
                None => ExpectedExit::NeverExits,
                Some(c) => ExpectedExit::ExitsWithCode(c),
            },
    {
        match expected {
            None => ExpectedExit::NeverExits,
            Some(c) => ExpectedExit::ExitsWithCode(c),
        }
    }
}

/// What a non-blocking poll of a child reports.
#[derive(Debug, Clone, Copy, PartialEq, Eq, Structural)]
pub enum ChildStatus {
    Running,
    /// The child ended; its exit code, or `None` when a signal ended it.
    Exited(Option<i32>),
}

/// What a watcher does after one poll.
#[derive(Debug, Clone, Copy, PartialEq, Eq, Structural)]
pub enum WatchAction {
    /// Sleep one interval and poll again.
    KeepWaiting,
    /// The child ended as expected: stop watching.
    Finish,
    /// The child ended against its policy: raise the alert.
    RaiseAlert,
}

/// Whether an exit with `code` meets `policy`, given whether we killed the child.
pub open spec fn exit_acceptable(policy: ExpectedExit, code: Option<i32>, killed_by_us: bool) -> bool {
    killed_by_us || match policy {
        ExpectedExit::NeverExits => false,
        ExpectedExit::ExitsWithCode(c) => code == Some(c),
    }
}

/// The action owed after a poll that reported `status`.
pub open spec fn watch_action(policy: ExpectedExit, status: ChildStatus, killed_by_us: bool) -> WatchAction {
    match status {
        ChildStatus::Running => WatchAction::KeepWaiting,
        ChildStatus::Exited(code) => if exit_acceptable(policy, code, killed_by_us) {
            WatchAction::Finish
        } else {
            WatchAction::RaiseAlert
        },
    }
}

/// Classifies an exit: `true` when it meets the policy or was caused by us.
pub fn is_expected_exit(policy: ExpectedExit, code: Option<i32>, killed_by_us: bool) -> (r: bool)
    ensures
        r == exit_acceptable(policy, code, killed_by_us),
{
    if killed_by_us {
        return true;
    }
    match policy {
        ExpectedExit::NeverExits => false,
        ExpectedExit::ExitsWithCode(c) => match code {
            Some(x) => x == c,
            None => false,
        },
    }
}

/// One step of a watcher loop: keep waiting while the child runs, then finish
/// or raise the alert according to the policy.
pub fn watch_step(policy: ExpectedExit, status: ChildStatus, killed_by_us: bool) -> (r: WatchAction)
    ensures
        r == watch_action(policy, status, killed_by_us),
{
    match status {
        ChildStatus::Running => WatchAction::KeepWaiting,
        ChildStatus::Exited(code) => {
            if is_expected_exit(policy, code, killed_by_us) {
                WatchAction::Finish
            } else {
                WatchAction::RaiseAlert
            }
        },
    }
}

/// A one-shot command that exits with the code it is expected to exit with
/// raises no alert; one that exits with any other code, unless we killed it,
/// raises one.
pub proof fn lemma_one_shot_exit(expected: i32, code: i32, killed_by_us: bool)
    ensures
        code == expected ==> watch_action(
            ExpectedExit::ExitsWithCode(expected),
            ChildStatus::Exited(Some(code)),
            killed_by_us,
        ) == WatchAction::Finish,
        code != expected && !killed_by_us ==> watch_action(
            ExpectedExit::ExitsWithCode(expected),
            ChildStatus::Exited(Some(code)),
            killed_by_us,
        ) == WatchAction::RaiseAlert,
{
}

/// A daemon that we terminated raises no alert when its watcher observes the
/// exit, whatever the exit looked like; one that ended without us always does.
pub proof fn lemma_daemon_exit(code: Option<i32>, killed_by_us: bool)
    ensures
        killed_by_us ==> watch_action(ExpectedExit::NeverExits, ChildStatus::Exited(code), true)
            == WatchAction::Finish,
        !killed_by_us ==> watch_action(ExpectedExit::NeverExits, ChildStatus::Exited(code), false)
            == WatchAction::RaiseAlert,
{
}

/// How many waits of `interval_ms` cover `grace_ms`: the least `n` with
/// `n * interval_ms >= grace_ms`.
pub open spec fn spec_poll_budget(grace_ms: nat, interval_ms: nat) -> nat
    recommends
        interval_ms > 0,
{
    ((grace_ms + interval_ms - 1) / (interval_ms as int)) as nat
}

/// The number of waits that the termination escalation allows.
pub fn poll_budget(grace_ms: u64, interval_ms: u64) -> (r: u64)
    requires
        interval_ms > 0,
    ensures
        r == spec_poll_budget(grace_ms as nat, interval_ms as nat),
        r * interval_ms >= grace_ms,
        r == 0 || (r - 1) * interval_ms < grace_ms,
{
    let q: u64 = grace_ms / interval_ms;
    let rem: u64 = grace_ms % interval_ms;
    let r: u64 = if rem == 0 {
        q
    } else {
        proof {
            assert(grace_ms == q * interval_ms + rem) by (nonlinear_arith)
                requires q == grace_ms / interval_ms, rem == grace_ms % interval_ms, interval_ms > 0;
            assert(q < u64::MAX) by (nonlinear_arith)
                requires interval_ms > 0, rem > 0, grace_ms <= u64::MAX,
                    grace_ms == q * interval_ms + rem;
        }
        q + 1
    };
    proof {
        let g = grace_ms as int;
        let i = interval_ms as int;
        assert(g == q * i + rem) by (nonlinear_arith)
            requires q == g / i, rem == g % i, i > 0;
        assert(0 <= rem < i);
        let rr = r as int;
        if rem == 0 {
            assert((g + i - 1) / i == q) by (nonlinear_arith)
                requires g == q * i, i > 0, q >= 0;
            assert(rr * i >= g && (rr == 0 || (rr - 1) * i < g)) by (nonlinear_arith)
                requires g == q * i, rr == q, i > 0, q >= 0;
        } else {
            assert((g + i - 1) / i == q + 1) by (nonlinear_arith)
                requires g == q * i + rem, 0 < rem < i, q >= 0;
            assert(rr * i >= g && (rr - 1) * i < g) by (nonlinear_arith)
                requires g == q * i + rem, 0 < rem < i, rr == q + 1, q >= 0;
        }
    }
    r
}

/// What the termination escalation does after one poll of the child.
#[derive(Debug, Clone, Copy, PartialEq, Eq, Structural)]
pub enum KillAction {
    /// The child is gone: return.
    Return,
    /// Still alive and within the grace period: sleep one interval, poll again.
    WaitAndPoll,
    /// Still alive after the grace period: send the forced kill and return.
    ForceKill,
}

/// The state of one escalating termination, started after the kill intent was
/// recorded and the terminate signal sent.
#[derive(Debug, Clone, Copy, PartialEq, Eq, Structural)]
pub struct KillEscalation {
    /// How many waits the grace period allows.
    pub budget: u64,
    /// How many waits have been spent.
    pub waited: u64,
}

/// The action owed after a poll that found the child `exited`, with `waited`
/// of `budget` waits spent.
pub open spec fn kill_action(budget: u64, waited: u64, exited: bool) -> KillAction {
    if exited {
        KillAction::Return
    } else if waited < budget {
        KillAction::WaitAndPoll
    } else {
        KillAction::ForceKill
    }
}

/// The waits that an escalation spends when its polls report `exits`, one
/// entry per poll, until it returns or forces the kill.
pub open spec fn waits_spent(budget: u64, waited: u64, exits: Seq<bool>) -> nat
    decreases exits.len(),
{
    if exits.len() == 0 {
        0
    } else {
        match kill_action(budget, waited, exits[0]) {
            KillAction::WaitAndPoll => 1 + waits_spent(budget, (waited + 1) as u64, exits.drop_first()),
            _ => 0,
        }
    }
}

impl KillEscalation {
    pub open spec fn wf(&self) -> bool {
        self.waited <= self.budget
    }

    /// An escalation with the grace period and polling interval of this library.
    pub fn new() -> (r: KillEscalation)
        ensures
            r.wf(),
            r.waited == 0,
            r.budget == spec_poll_budget(TERM_GRACETIME_MS as nat, SPIN_INTERVAL_MS as nat),
            r.budget * SPIN_INTERVAL_MS < TERM_GRACETIME_MS + SPIN_INTERVAL_MS,
    {
        let budget = poll_budget(TERM_GRACETIME_MS, SPIN_INTERVAL_MS);
        KillEscalation { budget, waited: 0 }
    }

    /// Decides after one poll; a wait is counted when one is owed.
    pub fn step(&mut self, exited: bool) -> (r: KillAction)
        requires
            old(self).wf(),
        ensures
            final(self).wf(),
            final(self).budget == old(self).budget,
            r == kill_action(old(self).budget, old(self).waited, exited),
            r == KillAction::WaitAndPoll ==> final(self).waited == old(self).waited + 1,
            r != KillAction::WaitAndPoll ==> final(self).waited == old(self).waited,
    {
        if exited {
            KillAction::Return
        } else if self.waited < self.budget {
            self.waited = self.waited + 1;
            KillAction::WaitAndPoll
        } else {
            KillAction::ForceKill
        }
    }
}

/// Termination is bounded: whatever the child does, an escalation spends at
/// most its budget of waits, so it ends within the grace period plus one
/// interval.
pub proof fn lemma_kill_bounded(e: KillEscalation, exits: Seq<bool>)
    requires
        e.wf(),
    ensures
        waits_spent(e.budget, e.waited, exits) <= e.budget - e.waited,
    decreases exits.len(),
{
    if exits.len() > 0 && kill_action(e.budget, e.waited, exits[0]) == KillAction::WaitAndPoll {
        lemma_kill_bounded(KillEscalation { budget: e.budget, waited: (e.waited + 1) as u64 }, exits.drop_first());
    }
}

/// With this library's grace period and polling interval, a termination
/// that the child ignores waits at most seven intervals, less than the grace
/// period plus one interval, before the forced kill.
pub proof fn lemma_kill_within_grace(exits: Seq<bool>)
    ensures
        waits_spent(spec_poll_budget(TERM_GRACETIME_MS as nat, SPIN_INTERVAL_MS as nat) as u64, 0, exits) <= 7,
        waits_spent(spec_poll_budget(TERM_GRACETIME_MS as nat, SPIN_INTERVAL_MS as nat) as u64, 0, exits)
            * SPIN_INTERVAL_MS < TERM_GRACETIME_MS + SPIN_INTERVAL_MS,
{
    assert((2000int + 333 - 1) / 333 == 7) by (nonlinear_arith);
    assert(spec_poll_budget(TERM_GRACETIME_MS as nat, SPIN_INTERVAL_MS as nat) == 7);
    lemma_kill_bounded(KillEscalation { budget: 7, waited: 0 }, exits);
    let w = waits_spent(7, 0, exits);
    assert(w * 333 <= 7 * 333) by (nonlinear_arith)
        requires w <= 7;
}

} // verus!
