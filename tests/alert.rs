use std::sync::atomic::{AtomicBool, Ordering};
use std::sync::Arc;
use supervisor::alert::{AlertEvent, AlertFlag, AlertSource};
use supervisor::scope::{ScopeAction, ScopeMonitor};
use supervisor::watchdog::{PanicWatchdog, Watchdog};

static TEST_FLAG: AtomicBool = AtomicBool::new(false);
static QUIET_FLAG: AtomicBool = AtomicBool::new(false);

#[test]
fn flag_starts_lowered_and_stays_raised() {
    let mut flag = AlertFlag::new();
    assert!(!flag.has_alert());
    assert!(!flag.apply(AlertEvent::Read));
    assert!(flag.apply(AlertEvent::Raise(AlertSource::Watcher)));
    for _ in 0..10 {
        assert!(flag.apply(AlertEvent::Read));
    }
    assert!(flag.apply(AlertEvent::Raise(AlertSource::Signal)));
    assert!(flag.has_alert());
}

#[test]
fn many_setters_in_any_order_raise_the_flag() {
    let sources = [AlertSource::Signal, AlertSource::Fatal, AlertSource::Watcher];
    let mut forward = AlertFlag::new();
    let mut backward = AlertFlag::new();
    for k in 0..60 {
        forward.apply(AlertEvent::Raise(sources[k % 3]));
        backward.apply(AlertEvent::Raise(sources[(59 - k) % 3]));
    }
    assert!(forward.has_alert());
    assert_eq!(forward, backward);
}

#[test]
fn repeated_stores_from_many_handles_leave_the_flag_raised() {
    let flag = Arc::new(AtomicBool::new(false));
    let handles: Vec<Arc<AtomicBool>> = (0..64).map(|_| Arc::clone(&flag)).collect();
    for (k, h) in handles.iter().enumerate() {
        h.store(true, Ordering::SeqCst);
        assert!(handles[(k * 7) % 64].load(Ordering::SeqCst));
    }
    assert!(flag.load(Ordering::SeqCst));
}

#[test]
fn watchdog_handles_read_the_flag_they_were_given() {
    let w = Watchdog::new(&TEST_FLAG);
    let p = PanicWatchdog::new(&TEST_FLAG);
    let q = PanicWatchdog::new(&QUIET_FLAG);
    TEST_FLAG.store(true, Ordering::SeqCst);
    assert!(w.has_alert());
    assert!(p.has_alert());
    assert!(!q.has_alert());
    assert!(std::ptr::eq(w.alert_flag(), &TEST_FLAG));
    assert!(std::ptr::eq(p.alert_flag(), &TEST_FLAG));
    assert!(std::ptr::eq(q.alert_flag(), &QUIET_FLAG));
}

#[test]
fn teardown_runs_exactly_once() {
    let mut m = ScopeMonitor::new();
    assert_eq!(m.poll(false), ScopeAction::Sleep);
    assert_eq!(m.poll(false), ScopeAction::Sleep);
    assert_eq!(m.poll(true), ScopeAction::RunOnAlert);
    assert_eq!(m.poll(true), ScopeAction::Return);
    assert_eq!(m.poll(false), ScopeAction::Return);
    assert!(m.torn_down);
}
