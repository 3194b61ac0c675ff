//! The launch supervisor: one state machine that owns the lifecycle of the
//! supervised child process.
//!
//! Each launch attempt allocates a port, spawns the child, then probes the
//! service for readiness; any failure retries from allocation, with a delay
//! that doubles per attempt, until the attempt budget is spent. The
//! supervisor owns at most one child at a time, never restarts by itself
//! after a final failure, and records every lifecycle notification it
//! emits. The surrounding program performs each returned directive — scan,
//! spawn, sleep, poll, kill — and reports the outcome back.

use vstd::prelude::*;
use crate::http::{service_url, service_url_chars};
use crate::probe::{ProbeStep, Prober};
use crate::retry::{backoff_ms, backoff_ms_spec, RetryPolicy};

verus! {

/// Lifecycle phase of the supervisor. Within one attempt the phase only
/// moves forward: Allocating, Spawning, Probing, then Running or a retry;
/// Stopped is reachable only from Running.
pub enum SupervisorState {
    /// No launch requested yet.
    Idle,
    /// Looking for a free port.
    Allocating,
    /// Starting the child process.
    Spawning,
    /// Waiting for the service to answer.
    Probing,
    /// The service answers at the given URL.
    Running { url: String },
    /// The attempt budget is spent; a fresh start call is required.
    Failed { reason: String },
    /// The child was stopped on request.
    Stopped,
}

/// One lifecycle notification. The program forwards each to its UI layer:
/// `Status` and `Polling` on the status channel, the rest on their own
/// channels (started, error, stopped).
pub enum Note {
    /// A launch attempt begins. Exactly one per attempt.
    Status { attempt: u32, max_attempts: u32 },
    /// One readiness poll is about to be made.
    Polling { attempt: u32, max_attempts: u32 },
    /// The service is ready at the given URL.
    Started { url: String },
    /// The launch failed for good.
    Error { reason: String },
    /// The child was stopped on request.
    Stopped,
}

/// What the surrounding program must do next.
pub enum Directive {
    /// Scan the port range and report the result to `on_port_scan`.
    ScanPorts,
    /// Spawn the child bound to the port; report to `on_spawn`.
    Spawn { port: u16 },
    /// Sleep for the delay, send one HEAD poll; report to `on_probe`.
    Poll { port: u16, delay_ms: u64 },
    /// Kill the child if asked (ignoring the outcome), sleep for the
    /// delay, then scan the port range again for the next attempt.
    Retry { kill_child: bool, delay_ms: u64 },
    /// The launch has failed for good; kill the child if asked.
    Fail { kill_child: bool },
    /// The service is running at the URL; nothing more to do.
    Ready { url: String },
}

/// Why a start or stop request was refused.
#[derive(Debug)]
pub enum SupervisorError {
    /// A start request while the service is live or launching.
    AlreadyRunning,
    /// A stop request with no running service.
    NotRunning,
    /// The kill request failed; the underlying error text is kept.
    TerminationFailure { message: String },
}

impl SupervisorError {
    /// The error as text.
    pub fn message(&self) -> (r: String)
        ensures
            r@ == (match *self {
                SupervisorError::AlreadyRunning => "service already running"@,
                SupervisorError::NotRunning => "no service running"@,
                SupervisorError::TerminationFailure { message } => "failed to stop service: "@
                    + message@,
            }),
    {
        match self {
            SupervisorError::AlreadyRunning => String::from_str("service already running"),
            SupervisorError::NotRunning => String::from_str("no service running"),
            SupervisorError::TerminationFailure { message } => {
                let mut s = String::from_str("failed to stop service: ");
                s.append(message.as_str());
                s
            },
        }
    }
}

/// The notes grew by exactly one entry.
pub open spec fn pushed_one(before: Seq<Note>, after: Seq<Note>) -> bool {
    &&& after.len() == before.len() + 1
    &&& after.subrange(0, before.len() as int) == before
}

/// The notes grew by one `Error` note carrying the given reason.
pub open spec fn pushed_error(before: Seq<Note>, after: Seq<Note>, reason: Seq<char>) -> bool {
    &&& pushed_one(before, after)
    &&& after.last() matches Note::Error { reason: s } && s@ == reason
}

/// The notes grew by one `Started` note carrying the given URL.
pub open spec fn pushed_started(before: Seq<Note>, after: Seq<Note>, url: Seq<char>) -> bool {
    &&& pushed_one(before, after)
    &&& after.last() matches Note::Started { url: s } && s@ == url
}

/// The state is `Failed` with the given reason.
pub open spec fn failed_with(s: SupervisorState, reason: Seq<char>) -> bool {
    s matches SupervisorState::Failed { reason: t } && t@ == reason
}

/// The state is `Running` at the given URL.
pub open spec fn running_at(s: SupervisorState, url: Seq<char>) -> bool {
    s matches SupervisorState::Running { url: u } && u@ == url
}

/// The launch supervisor. One value of this type owns one (potential)
/// child process; nothing here is global state.
pub struct Supervisor {
    /// Budget and backoff of the outer launch loop.
    pub launch_policy: RetryPolicy,
    /// Budget and backoff of the readiness-poll loop.
    pub probe_policy: RetryPolicy,
    /// First port of the scan range.
    pub port_start: u16,
    /// One past the last port of the scan range.
    pub port_end: u16,
    /// Current lifecycle phase.
    pub state: SupervisorState,
    /// The launch attempt in progress, counted from one.
    pub attempt: u32,
    /// Port of the attempt in progress, once allocated.
    pub current_port: Option<u16>,
    /// Poll bookkeeping of the attempt in progress.
    pub prober: Prober,
    /// Whether a child process is alive under this supervisor.
    pub has_child: bool,
    /// Every notification emitted so far, oldest first.
    pub notes: Vec<Note>,
}

/// The fixed configuration is unchanged between two supervisor values.
pub open spec fn same_config(a: Supervisor, b: Supervisor) -> bool {
    &&& b.launch_policy == a.launch_policy
    &&& b.probe_policy == a.probe_policy
    &&& b.port_start == a.port_start
    &&& b.port_end == a.port_end
}

impl Supervisor {
    /// There is a child exactly while probing or running; the attempt
    /// count stays within the budget; a port is known from spawning on.
    pub open spec fn wf(self) -> bool {
        &&& self.launch_policy.wf()
        &&& self.probe_policy.wf()
        &&& self.port_start <= self.port_end
        &&& match self.state {
            SupervisorState::Idle => !self.has_child,
            SupervisorState::Allocating => !self.has_child && 1 <= self.attempt
                <= self.launch_policy.max_attempts,
            SupervisorState::Spawning => !self.has_child && 1 <= self.attempt
                <= self.launch_policy.max_attempts && self.current_port is Some,
            SupervisorState::Probing => self.has_child && 1 <= self.attempt
                <= self.launch_policy.max_attempts && self.current_port is Some
                && self.prober.wf() && self.prober.policy == self.probe_policy
                && self.prober.attempts < self.probe_policy.max_attempts,
            SupervisorState::Running { .. } => self.has_child,
            SupervisorState::Failed { .. } => !self.has_child,
            SupervisorState::Stopped => !self.has_child,
        }
    }

    /// A fresh supervisor: idle, no child, nothing emitted.
    pub fn new(
        launch_policy: RetryPolicy,
        probe_policy: RetryPolicy,
        port_start: u16,
        port_end: u16,
    ) -> (r: Supervisor)
        requires
            launch_policy.wf(),
            probe_policy.wf(),
            port_start <= port_end,
        ensures
            r.wf(),
            r.launch_policy == launch_policy,
            r.probe_policy == probe_policy,
            r.port_start == port_start,
            r.port_end == port_end,
            r.state is Idle,
            r.attempt == 0,
            !r.has_child,
            r.notes@ =~= Seq::<Note>::empty(),
    {
        Supervisor {
            launch_policy,
            probe_policy,
            port_start,
            port_end,
            state: SupervisorState::Idle,
            attempt: 0,
            current_port: None,
            prober: Prober::new(probe_policy),
            has_child: false,
            notes: Vec::new(),
        }
    }

    /// Begins a launch: the first attempt starts allocating, with its
    /// status note. A supervisor that is mid-launch or running refuses:
    /// stop it first rather than orphan the child.
    pub fn start(&mut self) -> (r: Result<Directive, SupervisorError>)
        requires
            old(self).wf(),
        ensures
            final(self).wf(),
            same_config(*old(self), *final(self)),
            (old(self).state is Idle || old(self).state is Failed || old(self).state is Stopped)
                ==> {
                &&& final(self).state is Allocating
                &&& final(self).attempt == 1
                &&& !final(self).has_child
                &&& final(self).notes@ == old(self).notes@.push(
                    (Note::Status { attempt: 1u32, max_attempts: old(self).launch_policy.max_attempts }),
                )
                &&& r == Ok::<Directive, SupervisorError>(Directive::ScanPorts)
            },
            !(old(self).state is Idle || old(self).state is Failed || old(self).state is Stopped)
                ==> r == Err::<Directive, SupervisorError>(SupervisorError::AlreadyRunning)
                && *final(self) == *old(self),
    {
        let startable: bool = match &self.state {
            SupervisorState::Idle => true,
            SupervisorState::Failed { .. } => true,
            SupervisorState::Stopped => true,
            _ => false,
        };
        if startable {
            self.state = SupervisorState::Allocating;
            self.attempt = 1;
            self.current_port = None;
            self.notes.push(
                Note::Status { attempt: 1, max_attempts: self.launch_policy.max_attempts },
            );
            Ok(Directive::ScanPorts)
        } else {
            Err(SupervisorError::AlreadyRunning)
        }
    }

    /// Reports the port scan of the current attempt: a free port moves the
    /// attempt on to spawning; an exhausted range costs the attempt, and
    /// the launch retries after the doubling delay or fails for good.
    pub fn on_port_scan(&mut self, port: Option<u16>) -> (r: Directive)
        requires
            old(self).wf(),
            old(self).state is Allocating,
        ensures
            final(self).wf(),
            same_config(*old(self), *final(self)),
            final(self).has_child == old(self).has_child,
            port matches Some(p) ==> {
                &&& final(self).state is Spawning
                &&& final(self).current_port == Some(p)
                &&& final(self).attempt == old(self).attempt
                &&& final(self).notes@ == old(self).notes@
                &&& r == (Directive::Spawn { port: p })
            },
            port is None && old(self).attempt < old(self).launch_policy.max_attempts ==> {
                &&& final(self).state is Allocating
                &&& final(self).attempt == old(self).attempt + 1
                &&& final(self).notes@ == old(self).notes@.push(
                    (Note::Status {
                        attempt: (old(self).attempt + 1) as u32,
                        max_attempts: old(self).launch_policy.max_attempts,
                    }),
                )
                &&& r == (Directive::Retry {
                    kill_child: false,
                    delay_ms: backoff_ms_spec(
                        old(self).launch_policy.initial_delay_ms,
                        old(self).launch_policy.mult_num,
                        old(self).launch_policy.mult_den,
                        (old(self).attempt - 1) as nat,
                    ),
                })
            },
            port is None && old(self).attempt == old(self).launch_policy.max_attempts ==> {
                &&& failed_with(final(self).state, "no free port in range"@)
                &&& final(self).attempt == old(self).attempt
                &&& pushed_error(old(self).notes@, final(self).notes@, "no free port in range"@)
                &&& r == (Directive::Fail { kill_child: false })
            },
    {
        match port {
            Some(p) => {
                self.state = SupervisorState::Spawning;
                self.current_port = Some(p);
                Directive::Spawn { port: p }
            },
            None => self.attempt_failed(false, String::from_str("no free port in range")),
        }
    }

    /// Reports the spawn of the current attempt. Success moves on to
    /// probing and asks for the first poll; a spawn error costs the
    /// attempt, keeping the OS error text for the final reason.
    pub fn on_spawn(&mut self, result: Result<(), String>) -> (r: Directive)
        requires
            old(self).wf(),
            old(self).state is Spawning,
        ensures
            final(self).wf(),
            same_config(*old(self), *final(self)),
            result is Ok ==> {
                &&& final(self).state is Probing
                &&& final(self).has_child
                &&& final(self).attempt == old(self).attempt
                &&& final(self).current_port == old(self).current_port
                &&& final(self).prober.policy == old(self).probe_policy
                &&& final(self).prober.attempts == 0
                &&& final(self).notes@ == old(self).notes@.push(
                    (Note::Polling {
                        attempt: 1u32,
                        max_attempts: old(self).probe_policy.max_attempts,
                    }),
                )
                &&& old(self).current_port matches Some(p) && r == (Directive::Poll {
                    port: p,
                    delay_ms: old(self).probe_policy.initial_delay_ms,
                })
            },
            result is Err && old(self).attempt < old(self).launch_policy.max_attempts ==> {
                &&& final(self).state is Allocating
                &&& !final(self).has_child
                &&& final(self).attempt == old(self).attempt + 1
                &&& final(self).notes@ == old(self).notes@.push(
                    (Note::Status {
                        attempt: (old(self).attempt + 1) as u32,
                        max_attempts: old(self).launch_policy.max_attempts,
                    }),
                )
                &&& r == (Directive::Retry {
                    kill_child: false,
                    delay_ms: backoff_ms_spec(
                        old(self).launch_policy.initial_delay_ms,
                        old(self).launch_policy.mult_num,
                        old(self).launch_policy.mult_den,
                        (old(self).attempt - 1) as nat,
                    ),
                })
            },
            result matches Err(m) ==> (old(self).attempt == old(self).launch_policy.max_attempts
                ==> {
                &&& failed_with(final(self).state, "spawn failed: "@ + m@)
                &&& !final(self).has_child
                &&& pushed_error(old(self).notes@, final(self).notes@, "spawn failed: "@ + m@)
                &&& r == (Directive::Fail { kill_child: false })
            }),
    {
        match result {
            Ok(()) => {
                self.state = SupervisorState::Probing;
                self.has_child = true;
                self.prober = Prober::new(self.probe_policy);
                self.notes.push(
                    Note::Polling { attempt: 1, max_attempts: self.probe_policy.max_attempts },
                );
                let p: u16 = match self.current_port {
                    Some(p) => p,
                    None => {
                        proof {
                            assert(false);
                        }
                        0
                    },
                };
                Directive::Poll { port: p, delay_ms: self.probe_policy.initial_delay_ms }
            },
            Err(m) => {
                let mut reason = String::from_str("spawn failed: ");
                reason.append(m.as_str());
                self.attempt_failed(false, reason)
            },
        }
    }

    /// Reports one readiness poll. A success-class answer makes the
    /// service ready at its URL; a failed poll asks for the next poll
    /// after its grown delay, until the poll budget is spent — then the
    /// orphaned child is killed (exactly then is a kill requested on this
    /// path) and the attempt is charged like any other failure.
    pub fn on_probe(&mut self, ok: bool) -> (r: Directive)
        requires
            old(self).wf(),
            old(self).state is Probing,
        ensures
            final(self).wf(),
            same_config(*old(self), *final(self)),
            ok ==> {
                &&& old(self).current_port matches Some(p) && running_at(
                    final(self).state,
                    service_url_chars(p),
                )
                &&& final(self).has_child
                &&& old(self).current_port matches Some(p) && pushed_started(
                    old(self).notes@,
                    final(self).notes@,
                    service_url_chars(p),
                )
                &&& old(self).current_port matches Some(p) && (r matches Directive::Ready {
                    url: u,
                } && u@ == service_url_chars(p))
            },
            !ok && old(self).prober.attempts + 1 < old(self).probe_policy.max_attempts ==> {
                &&& final(self).state is Probing
                &&& final(self).has_child
                &&& final(self).attempt == old(self).attempt
                &&& final(self).prober == old(self).prober.spec_record(false).0
                &&& final(self).notes@ == old(self).notes@.push(
                    (Note::Polling {
                        attempt: (old(self).prober.attempts + 2) as u32,
                        max_attempts: old(self).probe_policy.max_attempts,
                    }),
                )
                &&& old(self).current_port matches Some(p) && r == (Directive::Poll {
                    port: p,
                    delay_ms: backoff_ms_spec(
                        old(self).probe_policy.initial_delay_ms,
                        old(self).probe_policy.mult_num,
                        old(self).probe_policy.mult_den,
                        (old(self).prober.attempts + 1) as nat,
                    ),
                })
            },
            !ok && old(self).prober.attempts + 1 == old(self).probe_policy.max_attempts
                && old(self).attempt < old(self).launch_policy.max_attempts ==> {
                &&& final(self).state is Allocating
                &&& !final(self).has_child
                &&& final(self).attempt == old(self).attempt + 1
                &&& final(self).notes@ == old(self).notes@.push(
                    (Note::Status {
                        attempt: (old(self).attempt + 1) as u32,
                        max_attempts: old(self).launch_policy.max_attempts,
                    }),
                )
                &&& r == (Directive::Retry {
                    kill_child: true,
                    delay_ms: backoff_ms_spec(
                        old(self).launch_policy.initial_delay_ms,
                        old(self).launch_policy.mult_num,
                        old(self).launch_policy.mult_den,
                        (old(self).attempt - 1) as nat,
                    ),
                })
            },
            !ok && old(self).prober.attempts + 1 == old(self).probe_policy.max_attempts
                && old(self).attempt == old(self).launch_policy.max_attempts ==> {
                &&& failed_with(final(self).state, "service never became ready"@)
                &&& !final(self).has_child
                &&& pushed_error(
                    old(self).notes@,
                    final(self).notes@,
                    "service never became ready"@,
                )
                &&& r == (Directive::Fail { kill_child: true })
            },
    {
        let p: u16 = match self.current_port {
            Some(p) => p,
            None => unreached(),
        };
        if ok {
            let url = service_url(p);
            self.state = SupervisorState::Running { url: service_url(p) };
            self.has_child = true;
            self.notes.push(Note::Started { url: url.clone() });
            proof {
                assert(self.notes@.subrange(0, old(self).notes@.len() as int)
                    =~= old(self).notes@);
            }
            Directive::Ready { url }
        } else {
            match self.prober.record(false) {
                ProbeStep::Retry { delay_ms } => {
                    self.notes.push(
                        Note::Polling {
                            attempt: self.prober.attempts + 1,
                            max_attempts: self.probe_policy.max_attempts,
                        },
                    );
                    Directive::Poll { port: p, delay_ms }
                },
                _ => {
                    self.has_child = false;
                    self.attempt_failed(true, String::from_str("service never became ready"))
                },
            }
        }
    }

    /// Requests a stop. Valid only while the service is running: the
    /// caller must then kill the child and report to `on_kill_result`.
    /// With no running service this is an error and nothing is emitted.
    pub fn stop(&mut self) -> (r: Result<(), SupervisorError>)
        requires
            old(self).wf(),
        ensures
            final(self).wf(),
            old(self).state is Running ==> r == Ok::<(), SupervisorError>(()) && *final(self)
                == *old(self),
            !(old(self).state is Running) ==> r == Err::<(), SupervisorError>(
                SupervisorError::NotRunning,
            ) && *final(self) == *old(self),
    {
        match &self.state {
            SupervisorState::Running { .. } => Ok(()),
            _ => Err(SupervisorError::NotRunning),
        }
    }

    /// Reports the kill that a granted stop request asked for. Success
    /// clears the child and emits the stopped note; a failed kill is
    /// surfaced with the OS error text, not retried, and emits nothing.
    pub fn on_kill_result(&mut self, result: Result<(), String>) -> (r: Result<
        (),
        SupervisorError,
    >)
        requires
            old(self).wf(),
            old(self).state is Running,
        ensures
            final(self).wf(),
            same_config(*old(self), *final(self)),
            result is Ok ==> {
                &&& final(self).state is Stopped
                &&& !final(self).has_child
                &&& final(self).notes@ == old(self).notes@.push(Note::Stopped)
                &&& r is Ok
            },
            result matches Err(m) ==> {
                &&& *final(self) == *old(self)
                &&& r matches Err(e) && e matches SupervisorError::TerminationFailure { message }
                    && message@ == m@
            },
    {
        match result {
            Ok(()) => {
                self.state = SupervisorState::Stopped;
                self.has_child = false;
                self.notes.push(Note::Stopped);
                Ok(())
            },
            Err(m) => Err(SupervisorError::TerminationFailure { message: m }),
        }
    }

    /// Charges the current attempt with a failure: either the next
    /// attempt begins — status note, doubling delay — or the budget is
    /// spent and the launch fails for good with the given reason.
    fn attempt_failed(&mut self, kill_child: bool, reason: String) -> (r: Directive)
        requires
            old(self).launch_policy.wf(),
            old(self).probe_policy.wf(),
            old(self).port_start <= old(self).port_end,
            !old(self).has_child,
            1 <= old(self).attempt <= old(self).launch_policy.max_attempts,
        ensures
            final(self).wf(),
            same_config(*old(self), *final(self)),
            !final(self).has_child,
            old(self).attempt < old(self).launch_policy.max_attempts ==> {
                &&& final(self).state is Allocating
                &&& final(self).attempt == old(self).attempt + 1
                &&& final(self).notes@ == old(self).notes@.push(
                    (Note::Status {
                        attempt: (old(self).attempt + 1) as u32,
                        max_attempts: old(self).launch_policy.max_attempts,
                    }),
                )
                &&& r == (Directive::Retry {
                    kill_child: kill_child,
                    delay_ms: backoff_ms_spec(
                        old(self).launch_policy.initial_delay_ms,
                        old(self).launch_policy.mult_num,
                        old(self).launch_policy.mult_den,
                        (old(self).attempt - 1) as nat,
                    ),
                })
            },
            old(self).attempt == old(self).launch_policy.max_attempts ==> {
                &&& failed_with(final(self).state, reason@)
                &&& final(self).attempt == old(self).attempt
                &&& pushed_error(old(self).notes@, final(self).notes@, reason@)
                &&& r == (Directive::Fail { kill_child: kill_child })
            },
    {
        if self.attempt < self.launch_policy.max_attempts {
            let delay_ms: u64 = backoff_ms(
                self.launch_policy.initial_delay_ms,
                self.launch_policy.mult_num,
                self.launch_policy.mult_den,
                self.attempt - 1,
            );
            self.attempt = self.attempt + 1;
            self.state = SupervisorState::Allocating;
            self.notes.push(
                Note::Status {
                    attempt: self.attempt,
                    max_attempts: self.launch_policy.max_attempts,
                },
            );
            Directive::Retry { kill_child, delay_ms }
        } else {
            self.state = SupervisorState::Failed { reason: reason.clone() };
            self.notes.push(Note::Error { reason });
            proof {
                assert(self.notes@.subrange(0, old(self).notes@.len() as int)
                    =~= old(self).notes@);
            }
            Directive::Fail { kill_child }
        }
    }
}

} // verus!
