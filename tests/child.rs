use supervisor::child::{
    is_expected_exit, poll_budget, watch_step, ChildStatus, ExpectedExit, KillAction, KillEscalation,
    SPIN_INTERVAL_MS, TERM_GRACETIME_MS,
};

#[test]
fn one_shot_exiting_zero_raises_no_alert() {
    let policy = ExpectedExit::ExitsWithCode(0);
    assert_eq!(watch_step(policy, ChildStatus::Running, false), supervisor::child::WatchAction::KeepWaiting);
    assert_eq!(watch_step(policy, ChildStatus::Exited(Some(0)), false), supervisor::child::WatchAction::Finish);
}

#[test]
fn one_shot_exiting_one_raises_an_alert() {
    let policy = ExpectedExit::ExitsWithCode(0);
    assert_eq!(watch_step(policy, ChildStatus::Exited(Some(1)), false), supervisor::child::WatchAction::RaiseAlert);
    assert_eq!(watch_step(policy, ChildStatus::Exited(None), false), supervisor::child::WatchAction::RaiseAlert);
}

#[test]
fn one_shot_interrupted_by_us_raises_no_alert() {
    let policy = ExpectedExit::ExitsWithCode(0);
    assert_eq!(watch_step(policy, ChildStatus::Exited(Some(1)), true), supervisor::child::WatchAction::Finish);
    assert_eq!(watch_step(policy, ChildStatus::Exited(None), true), supervisor::child::WatchAction::Finish);
}

#[test]
fn daemon_killed_by_us_raises_no_alert() {
    let policy = ExpectedExit::NeverExits;
    assert_eq!(watch_step(policy, ChildStatus::Running, true), supervisor::child::WatchAction::KeepWaiting);
    assert_eq!(watch_step(policy, ChildStatus::Exited(None), true), supervisor::child::WatchAction::Finish);
    assert_eq!(watch_step(policy, ChildStatus::Exited(Some(143)), true), supervisor::child::WatchAction::Finish);
}

#[test]
fn daemon_killed_externally_raises_an_alert() {
    let policy = ExpectedExit::NeverExits;
    assert_eq!(watch_step(policy, ChildStatus::Exited(None), false), supervisor::child::WatchAction::RaiseAlert);
    assert_eq!(watch_step(policy, ChildStatus::Exited(Some(0)), false), supervisor::child::WatchAction::RaiseAlert);
}

#[test]
fn exit_classification_with_other_codes() {
    assert!(is_expected_exit(ExpectedExit::ExitsWithCode(3), Some(3), false));
    assert!(!is_expected_exit(ExpectedExit::ExitsWithCode(3), Some(0), false));
    assert!(!is_expected_exit(ExpectedExit::NeverExits, Some(0), false));
    assert!(is_expected_exit(ExpectedExit::NeverExits, Some(0), true));
}

#[test]
fn poll_budget_rounds_up() {
    assert_eq!(poll_budget(TERM_GRACETIME_MS, SPIN_INTERVAL_MS), 7);
    assert_eq!(poll_budget(2000, 500), 4);
    assert_eq!(poll_budget(2001, 500), 5);
    assert_eq!(poll_budget(0, 333), 0);
    assert_eq!(poll_budget(u64::MAX, 1), u64::MAX);
    assert_eq!(poll_budget(u64::MAX, 2), u64::MAX / 2 + 1);
}

#[test]
fn stubborn_child_is_killed_after_the_grace_period() {
    let mut e = KillEscalation::new();
    assert_eq!(e.budget, 7);
    let mut waits: u64 = 0;
    loop {
        match e.step(false) {
            KillAction::WaitAndPoll => waits += 1,
            KillAction::ForceKill => break,
            KillAction::Return => panic!("the child never exits"),
        }
    }
    assert_eq!(waits, 7);
    assert!(waits * SPIN_INTERVAL_MS < TERM_GRACETIME_MS + SPIN_INTERVAL_MS);
}

#[test]
fn child_exiting_in_the_grace_period_ends_the_escalation() {
    let mut e = KillEscalation::new();
    assert_eq!(e.step(false), KillAction::WaitAndPoll);
    assert_eq!(e.step(false), KillAction::WaitAndPoll);
    assert_eq!(e.step(true), KillAction::Return);
    assert_eq!(e.waited, 2);
}
