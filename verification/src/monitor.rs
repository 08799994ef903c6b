//! The readiness monitor's wait loop, as a state machine over observed
//! facts: whether a readiness signal was buffered, and whether the
//! TCP-then-HTTP probe of the allocated port succeeded. The caller sleeps
//! one poll interval per round and probes; the monitor only decides.

use vstd::prelude::*;

verus! {

/// How a readiness wait ends: the service answered (by signal or probe),
/// or the budget ran out. Exactly one of the two — never both, never
/// neither.
#[derive(Clone, Copy, Debug, PartialEq, Eq, Structural)]
pub enum ReadinessOutcome {
    Ready,
    TimedOut,
}

/// The monitor's state: the overall budget, the fixed poll interval, and
/// how long it has waited so far.
#[derive(Clone, Copy, Debug)]
pub struct MonitorState {
    pub budget_ms: u64,
    pub poll_ms: u64,
    pub waited_ms: u64,
}

impl MonitorState {
    /// The state is consistent, and in particular the time waited can
    /// never reach the budget plus a full poll interval: the monitor
    /// blocks for at most one interval beyond its budget.
    pub open spec fn wf(self) -> bool {
        &&& 0 < self.poll_ms
        &&& self.budget_ms + self.poll_ms <= u64::MAX
        &&& self.waited_ms < self.budget_ms + self.poll_ms
    }

    /// A monitor that has not waited yet.
    pub fn new(budget_ms: u64, poll_ms: u64) -> (r: MonitorState)
        requires
            0 < poll_ms,
            budget_ms + poll_ms <= u64::MAX,
        ensures
            r.wf(),
            r == (MonitorState { budget_ms, poll_ms, waited_ms: 0 }),
    {
        MonitorState { budget_ms, poll_ms, waited_ms: 0 }
    }

    /// One round of the wait loop. A buffered signal wins immediately,
    /// without consuming any of the budget. Otherwise, once the budget is
    /// spent the wait times out. Otherwise the round costs one poll
    /// interval of sleep, after which a successful probe also means ready;
    /// failing that, the wait goes on (`None`).
    pub fn step(&mut self, signal: bool, probe_ok: bool) -> (r: Option<ReadinessOutcome>)
        requires
            old(self).wf(),
        ensures
            final(self).wf(),
            final(self).budget_ms == old(self).budget_ms,
            final(self).poll_ms == old(self).poll_ms,
            signal ==> r == Some(ReadinessOutcome::Ready) && *final(self) == *old(self),
            !signal && old(self).waited_ms >= old(self).budget_ms ==> r == Some(
                ReadinessOutcome::TimedOut,
            ) && *final(self) == *old(self),
            !signal && old(self).waited_ms < old(self).budget_ms ==> final(self).waited_ms == old(
                self,
            ).waited_ms + old(self).poll_ms && r == (if probe_ok {
                Some(ReadinessOutcome::Ready)
            } else {
                None::<ReadinessOutcome>
            }),
    {
        if signal {
            return Some(ReadinessOutcome::Ready);
        }
        if self.waited_ms >= self.budget_ms {
            return Some(ReadinessOutcome::TimedOut);
        }
        self.waited_ms = self.waited_ms + self.poll_ms;
        if probe_ok {
            Some(ReadinessOutcome::Ready)
        } else {
            None
        }
    }
}

/// Bounded-wait law: a consistent monitor has always slept strictly less
/// than its budget plus one poll interval, so the wait can never block
/// longer than that.
pub proof fn lemma_bounded_wait(m: MonitorState)
    requires
        m.wf(),
    ensures
        m.waited_ms < m.budget_ms + m.poll_ms,
{
}

} // verus!
