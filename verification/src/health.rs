//! Bounded readiness probing.
//!
//! A freshly spawned backend is polled on its health endpoint up to
//! `max_attempts` times, with a fixed delay between attempts and no delay
//! after the final one. The HTTP call itself is outside work; the library
//! classifies the answer and decides, attempt by attempt, whether to declare
//! the backend ready, wait and retry, or give up.

use vstd::prelude::*;

verus! {

/// How a readiness poll is bounded: at most `max_attempts` probes,
/// `retry_delay_ms` between consecutive probes. `timeout_secs` is the
/// advertised overall bound; it is informational, the real bound is
/// `max_attempts` probes spaced `retry_delay_ms` apart.
pub struct HealthCheckConfig {
    pub max_attempts: u32,
    pub timeout_secs: u64,
    pub retry_delay_ms: u64,
}

impl Default for HealthCheckConfig {
    /// Thirty attempts, one second apart, advertised as a thirty-second
    /// overall timeout.
    fn default() -> (c: Self)
        ensures
            c.max_attempts == 30,
            c.timeout_secs == 30,
            c.retry_delay_ms == 1000,
    {
        HealthCheckConfig { max_attempts: 30, timeout_secs: 30, retry_delay_ms: 1000 }
    }
}

/// A health probe answer is a success exactly when its HTTP status code lies
/// in the 2xx range.
pub open spec fn spec_is_success_status(code: u16) -> bool {
    200 <= code < 300
}

/// Classify an HTTP status code as a successful health answer.
pub fn is_success_status(code: u16) -> (r: bool)
    ensures
        r == spec_is_success_status(code),
{
    200 <= code && code < 300
}

/// What one probe attempt observed. A response outside the 2xx range and a
/// network error count the same way: not ready yet.
#[derive(Clone, Copy, Debug, PartialEq, Eq, Structural)]
pub enum ProbeOutcome {
    Healthy,
    Unhealthy,
}

/// Classify a received HTTP status code as a probe outcome.
pub fn classify_status(code: u16) -> (r: ProbeOutcome)
    ensures
        r is Healthy <==> spec_is_success_status(code),
{
    if is_success_status(code) {
        ProbeOutcome::Healthy
    } else {
        ProbeOutcome::Unhealthy
    }
}

/// What the poll loop must do after an attempt was recorded.
#[derive(Clone, Copy, Debug, PartialEq, Eq, Structural)]
pub enum ProbeStep {
    /// The backend answered healthy: stop polling, launch may proceed.
    Ready,
    /// Not ready yet and attempts remain: sleep this many milliseconds, then
    /// probe again.
    RetryAfter(u64),
    /// The attempt budget is spent: stop polling and fail the launch.
    GiveUp,
}

/// Where a poll stands: still probing, finished ready, or out of attempts.
#[derive(Clone, Copy, Debug, PartialEq, Eq, Structural)]
pub enum ProbeStatus {
    InProgress,
    Ready,
    GaveUp,
}

/// The poll loop's state: how many attempts were made and whether a verdict
/// was reached. The driver performs one HTTP probe per `record` call and
/// obeys the returned step.
pub struct ReadinessProbe {
    pub max_attempts: u32,
    pub retry_delay_ms: u64,
    pub attempts_made: u32,
    pub status: ProbeStatus,
}

impl ReadinessProbe {
    /// The attempt count never leaves `[0, max_attempts]`, probing may only
    /// continue while budget remains, and giving up spends all of it.
    pub open spec fn wf(&self) -> bool {
        &&& 1 <= self.max_attempts
        &&& self.attempts_made <= self.max_attempts
        &&& (self.status is InProgress ==> self.attempts_made < self.max_attempts)
        &&& (self.status is GaveUp ==> self.attempts_made == self.max_attempts)
    }

    /// Start a poll under the given bounds.
    pub fn new(config: &HealthCheckConfig) -> (p: Self)
        requires
            config.max_attempts >= 1,
        ensures
            p.wf(),
            p.max_attempts == config.max_attempts,
            p.retry_delay_ms == config.retry_delay_ms,
            p.attempts_made == 0,
            p.status is InProgress,
    {
        ReadinessProbe {
            max_attempts: config.max_attempts,
            retry_delay_ms: config.retry_delay_ms,
            attempts_made: 0,
            status: ProbeStatus::InProgress,
        }
    }

    /// Record the outcome of one probe attempt and decide the next step:
    /// ready stops the poll at once; failure either schedules a retry after
    /// the configured delay, or, on the final attempt, gives up with no
    /// further sleep.
    pub fn record(&mut self, outcome: ProbeOutcome) -> (step: ProbeStep)
        requires
            old(self).wf(),
            old(self).status is InProgress,
        ensures
            final(self).wf(),
            final(self).max_attempts == old(self).max_attempts,
            final(self).retry_delay_ms == old(self).retry_delay_ms,
            final(self).attempts_made == old(self).attempts_made + 1,
            outcome is Healthy ==> step is Ready && final(self).status is Ready,
            outcome is Unhealthy && old(self).attempts_made + 1 < old(self).max_attempts ==> {
                &&& step == ProbeStep::RetryAfter(old(self).retry_delay_ms)
                &&& final(self).status is InProgress
            },
            outcome is Unhealthy && old(self).attempts_made + 1 == old(self).max_attempts ==> {
                &&& step is GiveUp
                &&& final(self).status is GaveUp
            },
    {
        self.attempts_made += 1;
        match outcome {
            ProbeOutcome::Healthy => {
                self.status = ProbeStatus::Ready;
                ProbeStep::Ready
            },
            ProbeOutcome::Unhealthy => {
                if self.attempts_made < self.max_attempts {
                    ProbeStep::RetryAfter(self.retry_delay_ms)
                } else {
                    self.status = ProbeStatus::GaveUp;
                    ProbeStep::GiveUp
                }
            },
        }
    }
}

/// The index of the first healthy answer, if there is one.
pub open spec fn first_healthy_index(outcomes: Seq<ProbeOutcome>) -> Option<int>
    decreases outcomes.len(),
{
    if outcomes.len() == 0 {
        None
    } else if outcomes[0] is Healthy {
        Some(0int)
    } else {
        match first_healthy_index(outcomes.skip(1)) {
            Some(k) => Some(k + 1),
            None => None,
        }
    }
}

/// Whether a poll over these per-attempt outcomes ends ready.
pub open spec fn probe_ready(outcomes: Seq<ProbeOutcome>) -> bool {
    first_healthy_index(outcomes) is Some
}

/// How many probes the poll performs: up to and including the first healthy
/// answer, or all of them when none is healthy.
pub open spec fn probe_attempts(outcomes: Seq<ProbeOutcome>) -> int {
    match first_healthy_index(outcomes) {
        Some(k) => k + 1,
        None => outcomes.len() as int,
    }
}

/// `first_healthy_index` returns the smallest healthy index: the answer at
/// that index is healthy and everything before it is not; `None` means
/// nothing was healthy.
pub proof fn lemma_first_healthy_characterization(outcomes: Seq<ProbeOutcome>)
    ensures
        match first_healthy_index(outcomes) {
            Some(k) => {
                &&& 0 <= k < outcomes.len()
                &&& outcomes[k] is Healthy
                &&& forall|j: int| 0 <= j < k ==> outcomes[j] is Unhealthy
            },
            None => forall|j: int| 0 <= j < outcomes.len() ==> outcomes[j] is Unhealthy,
        },
    decreases outcomes.len(),
{
    if outcomes.len() > 0 && !(outcomes[0] is Healthy) {
        lemma_first_healthy_characterization(outcomes.skip(1));
        assert forall|j: int| 1 <= j < outcomes.len() implies outcomes[j] == outcomes.skip(1)[j
            - 1] by {
            assert(outcomes.skip(1)[j - 1] == outcomes[j]);
        }
        assert(outcomes[0] is Unhealthy);
    }
}

/// A healthy answer at position `i`, with nothing healthy before it, is the
/// first healthy answer.
pub proof fn lemma_first_healthy_is(outcomes: Seq<ProbeOutcome>, i: int)
    requires
        0 <= i < outcomes.len(),
        outcomes[i] is Healthy,
        forall|j: int| 0 <= j < i ==> outcomes[j] is Unhealthy,
    ensures
        first_healthy_index(outcomes) == Some(i),
    decreases i,
{
    if i == 0 {
    } else {
        assert forall|j: int| 0 <= j < i - 1 implies outcomes.skip(1)[j] is Unhealthy by {
            assert(outcomes.skip(1)[j] == outcomes[j + 1]);
        }
        assert(outcomes.skip(1)[i - 1] == outcomes[i]);
        lemma_first_healthy_is(outcomes.skip(1), i - 1);
    }
}

/// Law: against a server that answers healthy first on the k-th probe
/// (k within the attempt budget), the poll succeeds on exactly the k-th
/// attempt, having slept k - 1 times; the elapsed wait is (k - 1) retry
/// delays, and no sleep follows the succeeding attempt.
pub proof fn lemma_ready_on_kth_attempt(outcomes: Seq<ProbeOutcome>, k: int)
    requires
        1 <= k <= outcomes.len(),
        outcomes[k - 1] is Healthy,
        forall|j: int| 0 <= j < k - 1 ==> outcomes[j] is Unhealthy,
    ensures
        probe_ready(outcomes),
        probe_attempts(outcomes) == k,
{
    lemma_first_healthy_is(outcomes, k - 1);
}

/// Law: against a server that never answers healthy, the poll fails after
/// exactly its full attempt budget, having slept only between attempts --
/// `max_attempts` probes and `max_attempts - 1` sleeps, none after the last.
pub proof fn lemma_never_ready_exhausts_attempts(outcomes: Seq<ProbeOutcome>)
    requires
        forall|j: int| 0 <= j < outcomes.len() ==> outcomes[j] is Unhealthy,
    ensures
        !probe_ready(outcomes),
        probe_attempts(outcomes) == outcomes.len(),
{
    lemma_first_healthy_characterization(outcomes);
    match first_healthy_index(outcomes) {
        Some(k) => {
            assert(outcomes[k] is Unhealthy);
        },
        None => {},
    }
}

/// What a finished poll reports: the verdict, the number of probes made, and
/// the number of sleeps taken between them.
pub struct ProbeReport {
    pub ready: bool,
    pub attempts: u32,
    pub sleeps: u32,
}

/// Run a whole poll over the recorded per-attempt outcomes. `outcomes[i]`
/// is what the i-th probe would observe; attempts after a healthy answer
/// are never made. The report is exact: ready iff some outcome within the
/// budget is healthy, probes up to and including the first healthy answer,
/// and always one sleep less than probes -- never one after the last.
pub fn run_probe_schedule(config: &HealthCheckConfig, outcomes: &Vec<ProbeOutcome>) -> (r:
    ProbeReport)
    requires
        config.max_attempts >= 1,
        outcomes@.len() == config.max_attempts,
    ensures
        r.ready == probe_ready(outcomes@),
        r.attempts == probe_attempts(outcomes@),
        r.sleeps == r.attempts - 1,
{
    let mut probe = ReadinessProbe::new(config);
    let mut sleeps: u32 = 0;
    loop
        invariant
            probe.wf(),
            probe.status is InProgress,
            probe.max_attempts == config.max_attempts,
            outcomes@.len() == config.max_attempts,
            sleeps == probe.attempts_made,
            forall|j: int| 0 <= j < probe.attempts_made ==> outcomes@[j] is Unhealthy,
        decreases config.max_attempts - probe.attempts_made,
    {
        let i = probe.attempts_made as usize;
        let outcome = outcomes[i];
        let step = probe.record(outcome);
        match step {
            ProbeStep::Ready => {
                proof {
                    lemma_first_healthy_is(outcomes@, i as int);
                }
                return ProbeReport { ready: true, attempts: probe.attempts_made, sleeps };
            },
            ProbeStep::RetryAfter(_delay) => {
                sleeps += 1;
            },
            ProbeStep::GiveUp => {
                proof {
                    lemma_never_ready_exhausts_attempts(outcomes@);
                }
                return ProbeReport { ready: false, attempts: probe.attempts_made, sleeps };
            },
        }
    }
}

} // verus!
