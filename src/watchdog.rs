//! Handles on the process-wide alert flag.
use vstd::prelude::*;
use std::sync::atomic::{AtomicBool, Ordering};

verus! {

/// Reads the flag. What is read depends on every thread and signal handler of
/// the process, so nothing is known of it here.
fn load_alert(flag: &AtomicBool) -> (r: bool) {
    flag.load(Ordering::SeqCst)
}

/// A handle on the alert flag that signal handlers and the fatal hook set.
#[derive(Debug, Clone, Copy)]
pub struct PanicWatchdog {
    flag: &'static AtomicBool,
}

impl PanicWatchdog {
    /// A handle on `flag`, the flag that the process installed its handlers for.
    pub fn new(flag: &'static AtomicBool) -> (r: PanicWatchdog)
        ensures
            r.alert_flag_spec() == flag,
    {
        PanicWatchdog { flag }
    }

    pub closed spec fn alert_flag_spec(&self) -> &'static AtomicBool {
        self.flag
    }

    /// Whether any source has raised the alert.
    pub fn has_alert(&self) -> (r: bool) {
        load_alert(self.flag)
    }

    /// The flag this handle reads.
    pub fn alert_flag(&self) -> (r: &'static AtomicBool)
        ensures
            r == self.alert_flag_spec(),
    {
        self.flag
    }
}

/// The handle that the orchestration scope hands to its startup logic.
#[derive(Debug, Clone, Copy)]
pub struct Watchdog {
    flag: &'static AtomicBool,
}

impl Watchdog {
    /// A handle on `flag`, the flag that the process installed its handlers for.
    pub fn new(flag: &'static AtomicBool) -> (r: Watchdog)
        ensures
            r.alert_flag_spec() == flag,
    {
        Watchdog { flag }
    }

    pub closed spec fn alert_flag_spec(&self) -> &'static AtomicBool {
        self.flag
    }

    /// Whether any source has raised the alert.
    pub fn has_alert(&self) -> (r: bool) {
        load_alert(self.flag)
    }

    /// The flag this handle reads.
    pub fn alert_flag(&self) -> (r: &'static AtomicBool)
        ensures
            r == self.alert_flag_spec(),
    {
        self.flag
    }
}

} // verus!
