//! The alert flag as a mathematical object: a boolean that any number of
//! writers may only ever set.
use vstd::prelude::*;

verus! {

/// Who set the alert.
#[derive(Debug, Clone, Copy, PartialEq, Eq, Structural)]
pub enum AlertSource {
    /// An interrupt or terminate signal.
    Signal,
    /// A fatal failure on some thread.
    Fatal,
    /// A watched child that ended against its policy.
    Watcher,
}

/// One thing that happens to the alert flag: a write by some source, or a read.
#[derive(Debug, Clone, Copy, PartialEq, Eq, Structural)]
pub enum AlertEvent {
    Raise(AlertSource),
    Read,
}

/// The value of the alert flag after `events`, starting from `init`.
pub open spec fn flag_after(init: bool, events: Seq<AlertEvent>) -> bool
    decreases events.len(),
{
    if events.len() == 0 {
        init
    } else {
        let prev = flag_after(init, events.drop_last());
        match events.last() {
            AlertEvent::Raise(_) => true,
            AlertEvent::Read => prev,
        }
    }
}

/// Whether `events` holds at least one write.
pub open spec fn has_raise(events: Seq<AlertEvent>) -> bool {
    exists|i: int| 0 <= i < events.len() && events[i] is Raise
}

/// A snapshot of the alert flag: starts lowered, can only be raised.
#[derive(Debug, Clone, Copy, PartialEq, Eq, Structural)]
pub struct AlertFlag {
    pub raised: bool,
}

impl AlertFlag {
    /// A lowered flag.
    pub fn new() -> (r: AlertFlag)
        ensures
            !r.raised,
    {
        AlertFlag { raised: false }
    }

    /// Applies one event: a write raises the flag, a read leaves it as it was.
    pub fn apply(&mut self, event: AlertEvent) -> (r: bool)
        ensures
            final(self).raised == flag_after(old(self).raised, seq![event]),
            final(self).raised == (old(self).raised || event is Raise),
            r == final(self).raised,
    {
        proof {
            reveal_with_fuel(flag_after, 2);
            assert(seq![event].drop_last() =~= Seq::<AlertEvent>::empty());
            assert(seq![event].last() == event);
        }
        match event {
            AlertEvent::Raise(_) => {
                self.raised = true;
            },
            AlertEvent::Read => {},
        }
        self.raised
    }

    /// Whether the flag is raised.
    pub fn has_alert(&self) -> (r: bool)
        ensures
            r == self.raised,
    {
        self.raised
    }
}

/// The flag after a sequence of events is the flag before it, or any write in it.
pub proof fn lemma_flag_after(init: bool, events: Seq<AlertEvent>)
    ensures
        flag_after(init, events) == (init || has_raise(events)),
    decreases events.len(),
{
    if events.len() > 0 {
        let prev = events.drop_last();
        lemma_flag_after(init, prev);
        if has_raise(prev) {
            let i = choose|i: int| 0 <= i < prev.len() && prev[i] is Raise;
            assert(events[i] is Raise);
        }
        if has_raise(events) && !(events.last() is Raise) {
            let i = choose|i: int| 0 <= i < events.len() && events[i] is Raise;
            assert(prev[i] is Raise);
        }
    }
}

/// The flag is monotonic: once a read sees it raised, every later read, after
/// any further writes and reads, sees it raised too.
pub proof fn lemma_alert_monotonic(init: bool, before: Seq<AlertEvent>, after: Seq<AlertEvent>)
    requires
        flag_after(init, before),
    ensures
        flag_after(init, before + after),
{
    lemma_flag_after(init, before);
    lemma_flag_after(init, before + after);
    if !init {
        let i = choose|i: int| 0 <= i < before.len() && before[i] is Raise;
        assert((before + after)[i] is Raise);
    }
}

/// Writes commute: the flag after any interleaving of writes from any
/// number of sources, and of reads, depends only on which events occurred,
/// not on their order; and it is raised as soon as one source has written.
pub proof fn lemma_concurrent_setters(init: bool, a: Seq<AlertEvent>, b: Seq<AlertEvent>)
    requires
        forall|i: int| 0 <= i < a.len() ==> b.contains(#[trigger] a[i]),
        forall|j: int| 0 <= j < b.len() ==> a.contains(#[trigger] b[j]),
    ensures
        flag_after(init, a) == flag_after(init, b),
        has_raise(a) ==> flag_after(init, a),
{
    lemma_flag_after(init, a);
    lemma_flag_after(init, b);
    if has_raise(a) {
        let i = choose|i: int| 0 <= i < a.len() && a[i] is Raise;
        assert(b.contains(a[i]));
        let j = choose|j: int| 0 <= j < b.len() && b[j] == a[i];
        assert(b[j] is Raise);
    }
    if has_raise(b) {
        let j = choose|j: int| 0 <= j < b.len() && b[j] is Raise;
        assert(a.contains(b[j]));
        let i = choose|i: int| 0 <= i < a.len() && a[i] == b[j];
        assert(a[i] is Raise);
    }
}

} // verus!
