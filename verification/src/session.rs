//! One start operation as a state machine: the retry controller driving
//! attempts of port allocation, spawn and readiness wait, with a progress
//! notification at each stage. Every step hands the caller the next piece
//! of I/O to perform (`Action`); the caller answers with what it observed
//! (`SessionEvent`). The machine decides everything else.

use vstd::prelude::*;

verus! {

use vstd::arithmetic::power2::pow2;
use crate::monitor::{MonitorState, ReadinessOutcome};
use crate::ports::PortScanner;
use crate::registry::ProcessHandle;
use crate::retry::RetryState;
use crate::text::{service_url, url_chars};

/// A progress notification for the observer. The caller renders these to
/// whatever event bus it serves, in the order they are returned.
#[derive(Clone, Debug, PartialEq)]
pub enum Notification {
    /// An attempt is starting: which one out of how many.
    AttemptStarting { attempt: u32, max_attempts: u32 },
    /// The process is spawned; the monitor is waiting for readiness.
    WaitingForReady,
    /// Another dependency-loading line was seen; the count so far.
    PackagesLoaded { count: u64 },
    /// The service is ready at this URL.
    Started { url: String },
    /// Every attempt failed; the start operation is over.
    StartFailed,
    /// The registered process was stopped.
    Stopped,
}

/// The I/O the caller must perform next.
#[derive(Clone, Debug, PartialEq)]
pub enum Action {
    /// Try to bind-then-release this port on the configured host; answer
    /// with `BindResult`.
    ProbeBind { port: u16 },
    /// Spawn the process bound to this port, with output piped; answer
    /// with `SpawnResult`.
    SpawnProcess { port: u16 },
    /// Sleep one poll interval, drain the readiness channel, then probe
    /// the port once; answer with `PollResult`.
    Poll { port: u16, sleep_ms: u64 },
    /// Back off for this long; answer with `Slept`.
    Sleep { ms: u64 },
    /// The session is over: the service URL on success, nothing after
    /// retries were exhausted. No answer is expected.
    Finish { url: Option<String> },
}

/// What the caller observed while performing the requested action.
#[derive(Clone, Copy, Debug, PartialEq, Eq, Structural)]
pub enum SessionEvent {
    /// Whether the bind-then-release probe succeeded.
    BindResult { free: bool },
    /// The spawned process's identifier, or nothing if the spawn failed.
    SpawnResult { pid: Option<u32> },
    /// Whether a readiness signal was buffered, and whether the port
    /// probe that followed the poll sleep succeeded.
    PollResult { signal: bool, probe_ok: bool },
    /// The requested backoff sleep is done.
    Slept,
}

/// Where the session stands.
#[derive(Clone, Copy, Debug)]
pub enum Phase {
    /// Scanning the port range for a bindable port.
    Scanning { scanner: PortScanner },
    /// A free port was found; the spawn is in flight.
    Spawning { port: u16 },
    /// The process runs; the monitor is waiting for readiness.
    Awaiting { port: u16, monitor: MonitorState },
    /// An attempt failed; the backoff sleep is in flight.
    BackingOff,
    /// Terminal: the session succeeded or exhausted its attempts.
    Done { succeeded: bool },
}

/// What one step produced: the next action, the notifications to emit,
/// and — on a successful spawn — the handle the caller must register.
pub struct StepResult {
    pub action: Action,
    pub notes: Vec<Notification>,
    pub register: Option<ProcessHandle>,
}

/// One start operation.
pub struct StartSession {
    pub phase: Phase,
    pub retry: RetryState,
    pub port_lo: u16,
    pub port_hi: u16,
    pub budget_ms: u64,
    pub poll_ms: u64,
}

/// The session's fixed parameters are the same on both sides of a step.
pub open spec fn same_params(pre: StartSession, post: StartSession) -> bool {
    &&& post.port_lo == pre.port_lo
    &&& post.port_hi == pre.port_hi
    &&& post.budget_ms == pre.budget_ms
    &&& post.poll_ms == pre.poll_ms
}

/// The step emitted nothing and registered nothing.
pub open spec fn quiet(r: StepResult) -> bool {
    r.notes@.len() == 0 && r.register is None
}

/// What a failed attempt leads to: the failure is recorded, and either
/// the session backs off for the current delay (the attempt ceiling not
/// yet reached) or it ends in terminal failure, emitting the failure
/// notification.
pub open spec fn failed_attempt_post(pre: StartSession, post: StartSession, r: StepResult) -> bool {
    &&& post.retry.failures == pre.retry.failures + 1
    &&& post.retry.max_attempts == pre.retry.max_attempts
    &&& post.retry.initial_delay_ms == pre.retry.initial_delay_ms
    &&& r.register is None
    &&& if pre.retry.failures + 1 < pre.retry.max_attempts {
        &&& post.phase is BackingOff
        &&& r.action == Action::Sleep { ms: pre.retry.delay_ms }
        &&& r.notes@.len() == 0
    } else {
        &&& post.phase == Phase::Done { succeeded: false }
        &&& r.action == Action::Finish { url: None }
        &&& r.notes@ == seq![Notification::StartFailed]
    }
}

/// What readiness leads to: terminal success, with the service URL both
/// notified and returned.
pub open spec fn success_post(pre: StartSession, post: StartSession, r: StepResult, port: u16) -> bool {
    &&& post.phase == Phase::Done { succeeded: true }
    &&& post.retry == pre.retry
    &&& r.notes@.len() == 1
    &&& (r.notes@[0] matches Notification::Started { url } && url@ == url_chars(port))
    &&& (r.action matches Action::Finish { url: Some(u) } && u@ == url_chars(port))
    &&& r.register is None
}

/// The event is the answer to the action the phase is waiting on.
pub open spec fn event_fits(p: Phase, ev: SessionEvent) -> bool {
    match p {
        Phase::Scanning { .. } => ev is BindResult,
        Phase::Spawning { .. } => ev is SpawnResult,
        Phase::Awaiting { .. } => ev is PollResult,
        Phase::BackingOff => ev is Slept,
        Phase::Done { .. } => false,
    }
}

impl StartSession {
    /// The session's state is consistent: the retry controller is within
    /// its ceiling (strictly, while the session still runs), the monitor
    /// matches the session's budget, and any scanned or chosen port lies
    /// in the configured range.
    pub open spec fn wf(self) -> bool {
        &&& self.port_lo < self.port_hi
        &&& self.retry.wf()
        &&& 1 <= self.retry.max_attempts
        &&& 0 < self.poll_ms
        &&& self.budget_ms + self.poll_ms <= u64::MAX
        &&& match self.phase {
            Phase::Scanning { scanner } => {
                &&& scanner.end == self.port_hi
                &&& self.port_lo <= scanner.next_port < self.port_hi
                &&& self.retry.failures < self.retry.max_attempts
            },
            Phase::Spawning { port } => {
                &&& self.port_lo <= port < self.port_hi
                &&& self.retry.failures < self.retry.max_attempts
            },
            Phase::Awaiting { port, monitor } => {
                &&& monitor.wf()
                &&& monitor.budget_ms == self.budget_ms
                &&& monitor.poll_ms == self.poll_ms
                &&& self.port_lo <= port < self.port_hi
                &&& self.retry.failures < self.retry.max_attempts
            },
            Phase::BackingOff => self.retry.failures < self.retry.max_attempts,
            Phase::Done { .. } => true,
        }
    }

    /// Opens a session: the first attempt is announced and the scan of
    /// the port range begins at its low end.
    pub fn new(
        port_lo: u16,
        port_hi: u16,
        max_attempts: u32,
        initial_delay_ms: u64,
        budget_ms: u64,
        poll_ms: u64,
    ) -> (r: (StartSession, StepResult))
        requires
            port_lo < port_hi,
            1 <= max_attempts,
            initial_delay_ms * pow2(max_attempts as nat) <= u64::MAX,
            0 < poll_ms,
            budget_ms + poll_ms <= u64::MAX,
        ensures
            r.0.wf(),
            r.0.phase == (Phase::Scanning {
                scanner: PortScanner { next_port: port_lo, end: port_hi },
            }),
            r.0.retry.failures == 0,
            r.0.retry.max_attempts == max_attempts,
            r.0.retry.initial_delay_ms == initial_delay_ms,
            r.0.port_lo == port_lo,
            r.0.port_hi == port_hi,
            r.0.budget_ms == budget_ms,
            r.0.poll_ms == poll_ms,
            r.1.action == (Action::ProbeBind { port: port_lo }),
            r.1.notes@ == (seq![
                Notification::AttemptStarting { attempt: 1u32, max_attempts },
            ]),
            r.1.register is None,
    {
        let session = StartSession {
            phase: Phase::Scanning { scanner: PortScanner::new(port_lo, port_hi) },
            retry: RetryState::new(max_attempts, initial_delay_ms),
            port_lo,
            port_hi,
            budget_ms,
            poll_ms,
        };
        let mut notes: Vec<Notification> = Vec::new();
        notes.push(Notification::AttemptStarting { attempt: 1, max_attempts });
        proof {
            assert(notes@ =~= seq![Notification::AttemptStarting { attempt: 1u32, max_attempts }]);
        }
        (session, StepResult { action: Action::ProbeBind { port: port_lo }, notes, register: None })
    }

    /// The terminal result, once the session is done.
    pub fn outcome(&self) -> (r: Option<bool>)
        ensures
            r == (match self.phase {
                Phase::Done { succeeded } => Some(succeeded),
                _ => None::<bool>,
            }),
    {
        match self.phase {
            Phase::Done { succeeded } => Some(succeeded),
            _ => None,
        }
    }

    /// Records a failed attempt and decides between backing off and
    /// terminal failure.
    fn fail_attempt(&mut self) -> (r: StepResult)
        requires
            old(self).wf(),
            old(self).retry.failures < old(self).retry.max_attempts,
        ensures
            final(self).wf(),
            same_params(*old(self), *final(self)),
            failed_attempt_post(*old(self), *final(self), r),
    {
        let decision = self.retry.record_failure();
        if decision.give_up {
            self.phase = Phase::Done { succeeded: false };
            let mut notes: Vec<Notification> = Vec::new();
            notes.push(Notification::StartFailed);
            proof {
                assert(notes@ =~= seq![Notification::StartFailed]);
            }
            StepResult { action: Action::Finish { url: None }, notes, register: None }
        } else {
            self.phase = Phase::BackingOff;
            StepResult {
                action: Action::Sleep { ms: decision.backoff_ms },
                notes: Vec::new(),
                register: None,
            }
        }
    }

    /// One transition. The caller performed the action the current phase
    /// was waiting on and reports what it observed; the session moves on
    /// and says what to do next.
    pub fn step(&mut self, ev: SessionEvent) -> (r: StepResult)
        requires
            old(self).wf(),
            !(old(self).phase is Done),
            event_fits(old(self).phase, ev),
        ensures
            final(self).wf(),
            same_params(*old(self), *final(self)),
            // A free port was found: spawn on it.
            old(self).phase matches Phase::Scanning { scanner } ==> ev == (SessionEvent::BindResult {
                free: true,
            }) ==> {
                &&& final(self).phase == (Phase::Spawning { port: scanner.next_port })
                &&& final(self).retry == old(self).retry
                &&& r.action == (Action::SpawnProcess { port: scanner.next_port })
                &&& quiet(r)
            },
            // The port was taken and more remain: probe the next one.
            old(self).phase matches Phase::Scanning { scanner } ==> ev == (SessionEvent::BindResult {
                free: false,
            }) && scanner.next_port + 1 < old(self).port_hi ==> {
                &&& final(self).phase == (Phase::Scanning {
                    scanner: PortScanner {
                        next_port: (scanner.next_port + 1) as u16,
                        end: old(self).port_hi,
                    },
                })
                &&& final(self).retry == old(self).retry
                &&& r.action == (Action::ProbeBind { port: (scanner.next_port + 1) as u16 })
                &&& quiet(r)
            },
            // The range is exhausted: the attempt failed.
            old(self).phase matches Phase::Scanning { scanner } ==> ev == (SessionEvent::BindResult {
                free: false,
            }) && scanner.next_port + 1 == old(self).port_hi ==> failed_attempt_post(
                *old(self),
                *final(self),
                r,
            ),
            // The spawn succeeded: hand the handle over for registration
            // and start the readiness wait.
            old(self).phase matches Phase::Spawning { port } ==> ev matches
                SessionEvent::SpawnResult { pid: Some(p) } ==> {
                &&& final(self).phase == (Phase::Awaiting {
                    port,
                    monitor: MonitorState {
                        budget_ms: old(self).budget_ms,
                        poll_ms: old(self).poll_ms,
                        waited_ms: 0,
                    },
                })
                &&& final(self).retry == old(self).retry
                &&& r.action == (Action::Poll { port, sleep_ms: old(self).poll_ms })
                &&& r.notes@ == (seq![Notification::WaitingForReady])
                &&& r.register == Some(ProcessHandle { pid: p })
            },
            // The spawn failed: the attempt failed.
            old(self).phase matches Phase::Spawning { port } ==> ev == (SessionEvent::SpawnResult {
                pid: None,
            }) ==> failed_attempt_post(*old(self), *final(self), r),
            // A readiness signal ends the wait at once, successfully.
            old(self).phase matches Phase::Awaiting { port, monitor } ==> ev matches
                SessionEvent::PollResult { signal: true, probe_ok } ==> success_post(
                *old(self),
                *final(self),
                r,
                port,
            ),
            // No signal and the budget is spent: the attempt timed out.
            old(self).phase matches Phase::Awaiting { port, monitor } ==> ev matches
                SessionEvent::PollResult { signal: false, probe_ok } && monitor.waited_ms
                >= old(self).budget_ms ==> failed_attempt_post(*old(self), *final(self), r),
            // A successful probe within budget also means ready.
            old(self).phase matches Phase::Awaiting { port, monitor } ==> ev
                == (SessionEvent::PollResult { signal: false, probe_ok: true })
                && monitor.waited_ms < old(self).budget_ms ==> success_post(
                *old(self),
                *final(self),
                r,
                port,
            ),
            // Nothing yet: keep polling, one interval poorer.
            old(self).phase matches Phase::Awaiting { port, monitor } ==> ev
                == (SessionEvent::PollResult { signal: false, probe_ok: false })
                && monitor.waited_ms < old(self).budget_ms ==> {
                &&& final(self).phase == (Phase::Awaiting {
                    port,
                    monitor: MonitorState {
                        budget_ms: old(self).budget_ms,
                        poll_ms: old(self).poll_ms,
                        waited_ms: (monitor.waited_ms + old(self).poll_ms) as u64,
                    },
                })
                &&& final(self).retry == old(self).retry
                &&& r.action == (Action::Poll { port, sleep_ms: old(self).poll_ms })
                &&& quiet(r)
            },
            // The backoff is over: announce and begin the next attempt.
            (old(self).phase is BackingOff && ev == SessionEvent::Slept) ==> {
                &&& final(self).phase == (Phase::Scanning {
                    scanner: PortScanner { next_port: old(self).port_lo, end: old(self).port_hi },
                })
                &&& final(self).retry == old(self).retry
                &&& r.action == (Action::ProbeBind { port: old(self).port_lo })
                &&& r.notes@ == (seq![
                    Notification::AttemptStarting {
                        attempt: (old(self).retry.failures + 1) as u32,
                        max_attempts: old(self).retry.max_attempts,
                    },
                ])
                &&& r.register is None
            },
    {
        let phase = self.phase;
        match phase {
            Phase::Scanning { scanner } => {
                let free = match ev {
                    SessionEvent::BindResult { free } => free,
                    _ => vstd::pervasive::unreached(),
                };
                if free {
                    self.phase = Phase::Spawning { port: scanner.next_port };
                    StepResult {
                        action: Action::SpawnProcess { port: scanner.next_port },
                        notes: Vec::new(),
                        register: None,
                    }
                } else {
                    let mut advanced = scanner;
                    advanced.mark_taken();
                    match advanced.current() {
                        Some(p) => {
                            self.phase = Phase::Scanning { scanner: advanced };
                            StepResult {
                                action: Action::ProbeBind { port: p },
                                notes: Vec::new(),
                                register: None,
                            }
                        },
                        None => self.fail_attempt(),
                    }
                }
            },
            Phase::Spawning { port } => {
                let pid = match ev {
                    SessionEvent::SpawnResult { pid } => pid,
                    _ => vstd::pervasive::unreached(),
                };
                match pid {
                    Some(p) => {
                        self.phase = Phase::Awaiting {
                            port,
                            monitor: MonitorState::new(self.budget_ms, self.poll_ms),
                        };
                        let mut notes: Vec<Notification> = Vec::new();
                        notes.push(Notification::WaitingForReady);
                        proof {
                            assert(notes@ =~= seq![Notification::WaitingForReady]);
                        }
                        StepResult {
                            action: Action::Poll { port, sleep_ms: self.poll_ms },
                            notes,
                            register: Some(ProcessHandle { pid: p }),
                        }
                    },
                    None => self.fail_attempt(),
                }
            },
            Phase::Awaiting { port, monitor } => {
                let (signal, probe_ok) = match ev {
                    SessionEvent::PollResult { signal, probe_ok } => (signal, probe_ok),
                    _ => vstd::pervasive::unreached(),
                };
                let mut m = monitor;
                match m.step(signal, probe_ok) {
                    Some(ReadinessOutcome::Ready) => {
                        self.phase = Phase::Done { succeeded: true };
                        let url = service_url(port);
                        let note_url = url.clone();
                        let mut notes: Vec<Notification> = Vec::new();
                        notes.push(Notification::Started { url: note_url });
                        StepResult {
                            action: Action::Finish { url: Some(url) },
                            notes,
                            register: None,
                        }
                    },
                    Some(ReadinessOutcome::TimedOut) => self.fail_attempt(),
                    None => {
                        self.phase = Phase::Awaiting { port, monitor: m };
                        StepResult {
                            action: Action::Poll { port, sleep_ms: self.poll_ms },
                            notes: Vec::new(),
                            register: None,
                        }
                    },
                }
            },
            Phase::BackingOff => {
                self.phase = Phase::Scanning {
                    scanner: PortScanner::new(self.port_lo, self.port_hi),
                };
                let attempt = self.retry.failures + 1;
                let mut notes: Vec<Notification> = Vec::new();
                notes.push(
                    Notification::AttemptStarting {
                        attempt,
                        max_attempts: self.retry.max_attempts,
                    },
                );
                proof {
                    assert(notes@ =~= seq![
                        Notification::AttemptStarting {
                            attempt: (old(self).retry.failures + 1) as u32,
                            max_attempts: old(self).retry.max_attempts,
                        },
                    ]);
                }
                StepResult {
                    action: Action::ProbeBind { port: self.port_lo },
                    notes,
                    register: None,
                }
            },
            Phase::Done { .. } => vstd::pervasive::unreached(),
        }
    }
}

} // verus!
