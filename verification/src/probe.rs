use vstd::prelude::*;

verus! {

/// Backoff slept between two consecutive failed connection attempts.
pub const PROBE_BACKOFF_MS: u64 = 200;

/// Where a probe run stands.
#[derive(Clone, Copy, Debug, PartialEq, Eq, Structural)]
pub enum ProbeStatus {
    /// More attempts remain and none has connected yet.
    Running,
    /// A connection succeeded on the recorded 1-based attempt number.
    Succeeded { attempt: u32 },
    /// Every attempt failed: the retry budget is exhausted.
    Failed,
}

/// What the caller must do after recording one attempt's outcome.
#[derive(Clone, Copy, Debug, PartialEq, Eq, Structural)]
pub enum ProbeDirective {
    /// The probe is over and the port is accepting connections.
    ReportHealthy,
    /// Sleep for the backoff, then attempt one more connection.
    SleepThenRetry { backoff_ms: u64 },
    /// The probe is over; the port never accepted a connection.
    ReportTimeout { port: u16, attempts: u32 },
}

/// The health prober's retry state: up to `max_attempts` sequential TCP
/// connection attempts against loopback `port`, a fixed backoff after
/// each failure except the last. The caller performs each connect and
/// sleep; this machine decides everything else.
pub struct HealthProber {
    pub port: u16,
    pub max_attempts: u32,
    pub attempts_made: u32,
    pub slept_ms: u64,
    pub status: ProbeStatus,
}

impl HealthProber {
    /// Internal consistency: attempts stay within budget, and the
    /// recorded sleep time is pinned by how far the run has come
    /// (every failed attempt but a final failing one is followed by
    /// exactly one backoff).
    pub open spec fn wf(self) -> bool {
        &&& self.attempts_made <= self.max_attempts
        &&& match self.status {
            ProbeStatus::Running => {
                &&& self.attempts_made < self.max_attempts
                &&& self.slept_ms == PROBE_BACKOFF_MS * self.attempts_made
            },
            ProbeStatus::Succeeded { attempt } => {
                &&& attempt == self.attempts_made
                &&& 1 <= attempt <= self.max_attempts
                &&& self.slept_ms == PROBE_BACKOFF_MS * (attempt - 1)
            },
            ProbeStatus::Failed => {
                &&& self.attempts_made == self.max_attempts
                &&& self.slept_ms == if self.max_attempts == 0 {
                    0
                } else {
                    PROBE_BACKOFF_MS * (self.max_attempts - 1)
                }
            },
        }
    }

    /// The state after one attempt's outcome is recorded: success ends
    /// the run; a failure either schedules a retry (with backoff) or,
    /// on the final attempt, exhausts the budget with no further sleep.
    pub open spec fn recorded(self, connected: bool) -> Self {
        if connected {
            HealthProber {
                attempts_made: (self.attempts_made + 1) as u32,
                status: ProbeStatus::Succeeded { attempt: (self.attempts_made + 1) as u32 },
                ..self
            }
        } else if self.attempts_made + 1 < self.max_attempts {
            HealthProber {
                attempts_made: (self.attempts_made + 1) as u32,
                slept_ms: (self.slept_ms + PROBE_BACKOFF_MS) as u64,
                ..self
            }
        } else {
            HealthProber {
                attempts_made: (self.attempts_made + 1) as u32,
                status: ProbeStatus::Failed,
                ..self
            }
        }
    }

    /// A fresh probe run against `port` with a budget of
    /// `max_attempts` connection attempts. An empty budget is already
    /// exhausted: no attempt will be made and the run has failed.
    pub fn new(port: u16, max_attempts: u32) -> (p: Self)
        ensures
            p.wf(),
            p.port == port,
            p.max_attempts == max_attempts,
            p.attempts_made == 0,
            p.slept_ms == 0,
            max_attempts >= 1 ==> p.status is Running,
            max_attempts == 0 ==> p.status is Failed,
    {
        HealthProber {
            port,
            max_attempts,
            attempts_made: 0,
            slept_ms: 0,
            status: if max_attempts == 0 {
                ProbeStatus::Failed
            } else {
                ProbeStatus::Running
            },
        }
    }

    /// Record the outcome of one connection attempt and say what to do
    /// next. Success on this attempt ends the run healthy; a failure
    /// before the final attempt asks for one backoff and a retry; a
    /// failure on the final attempt ends the run with a timeout that
    /// carries the port and the attempt count for diagnostics.
    pub fn record(&mut self, connected: bool) -> (d: ProbeDirective)
        requires
            old(self).wf(),
            old(self).status is Running,
        ensures
            final(self).wf(),
            *final(self) == old(self).recorded(connected),
            connected ==> d == ProbeDirective::ReportHealthy,
            !connected && old(self).attempts_made + 1 < old(self).max_attempts ==> d
                == (ProbeDirective::SleepThenRetry { backoff_ms: PROBE_BACKOFF_MS }),
            !connected && old(self).attempts_made + 1 == old(self).max_attempts ==> d
                == (ProbeDirective::ReportTimeout {
                port: old(self).port,
                attempts: old(self).max_attempts,
            }),
    {
        self.attempts_made = self.attempts_made + 1;
        if connected {
            self.status = ProbeStatus::Succeeded { attempt: self.attempts_made };
            ProbeDirective::ReportHealthy
        } else if self.attempts_made < self.max_attempts {
            self.slept_ms = self.slept_ms + PROBE_BACKOFF_MS;
            ProbeDirective::SleepThenRetry { backoff_ms: PROBE_BACKOFF_MS }
        } else {
            self.status = ProbeStatus::Failed;
            ProbeDirective::ReportTimeout { port: self.port, attempts: self.max_attempts }
        }
    }

    /// Whether another connection attempt is due.
    pub fn is_running(&self) -> (r: bool)
        ensures
            r <==> self.status is Running,
    {
        matches!(self.status, ProbeStatus::Running)
    }
}

/// The prober's state after a whole sequence of attempt outcomes has
/// been recorded, stopping early once the run is over.
pub open spec fn run_from(p: HealthProber, outcomes: Seq<bool>) -> HealthProber
    decreases outcomes.len(),
{
    if outcomes.len() == 0 || !(p.status is Running) {
        p
    } else {
        run_from(p.recorded(outcomes[0]), outcomes.skip(1))
    }
}

/// Against a port with no listener, a probe with a budget of `N`
/// attempts fails after exactly `N` attempts, having slept the backoff
/// exactly `N - 1` times: one full run of failures exhausts the budget
/// and nothing more.
pub proof fn lemma_probe_exhausts_budget(p: HealthProber, outcomes: Seq<bool>)
    requires
        p.wf(),
        p.status is Running,
        outcomes.len() == p.max_attempts - p.attempts_made,
        forall|i: int| 0 <= i < outcomes.len() ==> !outcomes[i],
    ensures
        run_from(p, outcomes) == (HealthProber {
            attempts_made: p.max_attempts,
            slept_ms: (PROBE_BACKOFF_MS * (p.max_attempts - 1)) as u64,
            status: ProbeStatus::Failed,
            ..p
        }),
    decreases outcomes.len(),
{
    let p1 = p.recorded(outcomes[0]);
    assert(run_from(p, outcomes) == run_from(p1, outcomes.skip(1)));
    if outcomes.len() == 1 {
        assert(run_from(p1, outcomes.skip(1)) == p1);
    } else {
        assert(forall|i: int| 0 <= i < outcomes.skip(1).len() ==> !outcomes.skip(1)[i]);
        lemma_probe_exhausts_budget(p1, outcomes.skip(1));
    }
}

/// Against a listener that starts accepting at attempt `K` (every
/// earlier attempt fails, attempt `K` connects, `K` within budget), the
/// probe succeeds on exactly attempt `K`, having slept the backoff
/// exactly `K - 1` times.
pub proof fn lemma_probe_succeeds_at_first_accept(p: HealthProber, outcomes: Seq<bool>, k: int)
    requires
        p.wf(),
        p.status is Running,
        p.attempts_made + k <= p.max_attempts,
        1 <= k <= outcomes.len(),
        forall|i: int| 0 <= i < k - 1 ==> !outcomes[i],
        outcomes[k - 1],
    ensures
        run_from(p, outcomes) == (HealthProber {
            attempts_made: (p.attempts_made + k) as u32,
            slept_ms: (PROBE_BACKOFF_MS * (p.attempts_made + k - 1)) as u64,
            status: ProbeStatus::Succeeded { attempt: (p.attempts_made + k) as u32 },
            ..p
        }),
    decreases k,
{
    let p1 = p.recorded(outcomes[0]);
    assert(run_from(p, outcomes) == run_from(p1, outcomes.skip(1)));
    if k == 1 {
        assert(run_from(p1, outcomes.skip(1)) == p1);
        assert(p.slept_ms == PROBE_BACKOFF_MS * p.attempts_made);
    } else {
        assert(forall|i: int| 0 <= i < k - 2 ==> !outcomes.skip(1)[i]);
        assert(outcomes.skip(1)[k - 2]);
        lemma_probe_succeeds_at_first_accept(p1, outcomes.skip(1), k - 1);
    }
}

} // verus!
