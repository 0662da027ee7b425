//! Graceful-then-forced termination.
//!
//! After the child is asked to stop, its exit status is polled at a fixed
//! short interval for a bounded grace window. A child that exits within the
//! window was shut down gracefully and the forced kill is never issued; a
//! child that out-waits the window, or whose status cannot be read, is
//! killed unconditionally. Signalling, sleeping and polling are outside
//! work; `GraceWait` owns the bound and the decision after every poll.

use vstd::prelude::*;

use crate::supervisor::PollOutcome;

verus! {

/// How many times the child's exit status is polled before force-killing.
pub const GRACE_POLL_BUDGET: u32 = 50;

/// How long the caller sleeps between two polls, in milliseconds. Together
/// with the poll budget this bounds the grace window at five seconds.
pub const GRACE_POLL_INTERVAL_MS: u64 = 100;

/// What the termination loop must do after a poll was recorded.
#[derive(Clone, Copy, Debug, PartialEq, Eq, Structural)]
pub enum ShutdownStep {
    /// The child exited within the grace window: done, no forced kill.
    GracefulDone,
    /// The child is still running and grace remains: sleep this many
    /// milliseconds, then poll again.
    SleepAndPoll(u64),
    /// The grace window elapsed or the status could not be read: kill the
    /// child unconditionally and reap it.
    ForceKill,
}

/// The termination loop's state: how many polls were spent and whether a
/// verdict was reached.
pub struct GraceWait {
    pub polls_made: u32,
    pub settled: bool,
}

impl GraceWait {
    /// A fresh wait: no polls spent yet.
    pub open spec fn spec_new() -> GraceWait {
        GraceWait { polls_made: 0, settled: false }
    }

    /// The poll count never leaves `[0, GRACE_POLL_BUDGET]` and an
    /// unsettled wait always has budget left.
    pub open spec fn wf(&self) -> bool {
        &&& self.polls_made <= GRACE_POLL_BUDGET
        &&& (!self.settled ==> self.polls_made < GRACE_POLL_BUDGET)
    }

    /// Start the grace wait, right after the stop request was sent.
    pub fn new() -> (w: Self)
        ensures
            w == Self::spec_new(),
            w.wf(),
    {
        GraceWait { polls_made: 0, settled: false }
    }

    /// Record one poll of the child's exit status and decide the next step:
    /// an exit settles the wait gracefully; a still-running child either
    /// earns another sleep-and-poll round or, when this poll spent the
    /// budget, the forced kill; a failed poll forces at once.
    pub fn record_poll(&mut self, poll: PollOutcome) -> (step: ShutdownStep)
        requires
            old(self).wf(),
            !old(self).settled,
        ensures
            final(self).wf(),
            final(self).polls_made == old(self).polls_made + 1,
            poll is Exited ==> step is GracefulDone && final(self).settled,
            poll is PollFailed ==> step is ForceKill && final(self).settled,
            poll is StillRunning && old(self).polls_made + 1 < GRACE_POLL_BUDGET ==> {
                &&& step == ShutdownStep::SleepAndPoll(GRACE_POLL_INTERVAL_MS)
                &&& !final(self).settled
            },
            poll is StillRunning && old(self).polls_made + 1 == GRACE_POLL_BUDGET ==> {
                &&& step is ForceKill
                &&& final(self).settled
            },
    {
        self.polls_made += 1;
        match poll {
            PollOutcome::Exited => {
                self.settled = true;
                ShutdownStep::GracefulDone
            },
            PollOutcome::PollFailed => {
                self.settled = true;
                ShutdownStep::ForceKill
            },
            PollOutcome::StillRunning => {
                if self.polls_made < GRACE_POLL_BUDGET {
                    ShutdownStep::SleepAndPoll(GRACE_POLL_INTERVAL_MS)
                } else {
                    self.settled = true;
                    ShutdownStep::ForceKill
                }
            },
        }
    }
}

/// The index of the first poll that settles the wait: the first one that is
/// not `StillRunning`.
pub open spec fn first_settling_index(polls: Seq<PollOutcome>) -> Option<int>
    decreases polls.len(),
{
    if polls.len() == 0 {
        None
    } else if !(polls[0] is StillRunning) {
        Some(0int)
    } else {
        match first_settling_index(polls.skip(1)) {
            Some(k) => Some(k + 1),
            None => None,
        }
    }
}

/// Whether a grace wait over these per-poll observations ends gracefully:
/// some poll settles it, and what it saw was an exit.
pub open spec fn grace_graceful(polls: Seq<PollOutcome>) -> bool {
    match first_settling_index(polls) {
        Some(k) => polls[k] is Exited,
        None => false,
    }
}

/// How many polls the wait spends: up to and including the first settling
/// one, or the whole budget when every poll saw the child still running.
pub open spec fn grace_polls_used(polls: Seq<PollOutcome>) -> int {
    match first_settling_index(polls) {
        Some(k) => k + 1,
        None => polls.len() as int,
    }
}

/// `first_settling_index` returns the smallest settling index: that poll is
/// not `StillRunning` and every poll before it is; `None` means the child
/// was seen still running throughout.
pub proof fn lemma_first_settling_characterization(polls: Seq<PollOutcome>)
    ensures
        match first_settling_index(polls) {
            Some(k) => {
                &&& 0 <= k < polls.len()
                &&& !(polls[k] is StillRunning)
                &&& forall|j: int| 0 <= j < k ==> polls[j] is StillRunning
            },
            None => forall|j: int| 0 <= j < polls.len() ==> polls[j] is StillRunning,
        },
    decreases polls.len(),
{
    if polls.len() > 0 && polls[0] is StillRunning {
        lemma_first_settling_characterization(polls.skip(1));
        assert forall|j: int| 1 <= j < polls.len() implies polls[j] == polls.skip(1)[j - 1] by {
            assert(polls.skip(1)[j - 1] == polls[j]);
        }
    }
}

/// A settling poll at position `i` with only still-running polls before it
/// is the first settling poll.
pub proof fn lemma_first_settling_is(polls: Seq<PollOutcome>, i: int)
    requires
        0 <= i < polls.len(),
        !(polls[i] is StillRunning),
        forall|j: int| 0 <= j < i ==> polls[j] is StillRunning,
    ensures
        first_settling_index(polls) == Some(i),
    decreases i,
{
    if i > 0 {
        assert forall|j: int| 0 <= j < i - 1 implies polls.skip(1)[j] is StillRunning by {
            assert(polls.skip(1)[j] == polls[j + 1]);
        }
        assert(polls.skip(1)[i - 1] == polls[i]);
        lemma_first_settling_is(polls.skip(1), i - 1);
    }
}

/// Law: a child that exits on the k-th poll of the grace window is shut
/// down gracefully -- the wait ends after exactly k polls and the forced
/// kill is never issued.
pub proof fn lemma_exit_within_grace_is_graceful(polls: Seq<PollOutcome>, k: int)
    requires
        1 <= k <= polls.len(),
        polls[k - 1] is Exited,
        forall|j: int| 0 <= j < k - 1 ==> polls[j] is StillRunning,
    ensures
        grace_graceful(polls),
        grace_polls_used(polls) == k,
{
    lemma_first_settling_is(polls, k - 1);
}

/// Law: a child that ignores the stop request for the entire grace window
/// is killed by force -- the wait spends its whole poll budget, the verdict
/// is not graceful, and the forced kill is issued on the final poll.
pub proof fn lemma_ignored_grace_is_forced(polls: Seq<PollOutcome>)
    requires
        forall|j: int| 0 <= j < polls.len() ==> polls[j] is StillRunning,
    ensures
        !grace_graceful(polls),
        grace_polls_used(polls) == polls.len(),
{
    lemma_first_settling_characterization(polls);
    match first_settling_index(polls) {
        Some(k) => {
            assert(polls[k] is StillRunning);
        },
        None => {},
    }
}

/// What a finished grace wait reports: the verdict, the number of polls
/// spent, and whether the forced kill was issued.
pub struct GraceReport {
    pub graceful: bool,
    pub polls: u32,
    pub forced: bool,
}

/// Run a whole grace wait over the recorded per-poll observations.
/// `polls[i]` is what the i-th poll would observe; polls after the settling
/// one are never made. The report is exact: graceful iff the first settling
/// poll saw an exit, forced otherwise, with the poll count bounded by the
/// budget.
pub fn run_grace_wait(polls: &Vec<PollOutcome>) -> (r: GraceReport)
    requires
        polls@.len() == GRACE_POLL_BUDGET,
    ensures
        r.graceful == grace_graceful(polls@),
        r.polls == grace_polls_used(polls@),
        r.forced == !r.graceful,
{
    let mut wait = GraceWait::new();
    loop
        invariant
            wait.wf(),
            !wait.settled,
            polls@.len() == GRACE_POLL_BUDGET,
            forall|j: int| 0 <= j < wait.polls_made ==> polls@[j] is StillRunning,
        decreases GRACE_POLL_BUDGET - wait.polls_made,
    {
        let i = wait.polls_made as usize;
        let poll = polls[i];
        let step = wait.record_poll(poll);
        match step {
            ShutdownStep::GracefulDone => {
                proof {
                    lemma_first_settling_is(polls@, i as int);
                }
                return GraceReport { graceful: true, polls: wait.polls_made, forced: false };
            },
            ShutdownStep::SleepAndPoll(_delay) => {},
            ShutdownStep::ForceKill => {
                proof {
                    if poll is StillRunning {
                        lemma_ignored_grace_is_forced(polls@);
                    } else {
                        lemma_first_settling_is(polls@, i as int);
                    }
                }
                return GraceReport { graceful: false, polls: wait.polls_made, forced: true };
            },
        }
    }
}

} // verus!
