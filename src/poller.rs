//! The bounded-time state machine that follows a submitted job until the
//! backend reports a result or a failure, or the deadline passes. The caller
//! performs each poll and each pause; this module decides what comes next.
use vstd::prelude::*;

verus! {

/// Overall deadline of a job, in milliseconds from its submission: the backend
/// gives a job five minutes of execution.
pub const JOB_DEADLINE_MS: u64 = 300000;

/// What one poll of a submitted job reports. `E` is the cause of a failure,
/// which this module carries and never inspects.
pub enum DownloadStatus<E> {
    /// The job is done: the obfuscated output.
    Ready(Vec<u8>),
    /// The job is still being processed.
    Processing,
    /// The job failed.
    Failed(E),
}

/// How a job ended.
pub enum JobOutcome<E> {
    /// The backend handed back the output.
    Ready(Vec<u8>),
    /// The backend reported a failure.
    Failed(E),
    /// The deadline passed without a terminal answer: the job's true outcome
    /// is unknown.
    TimedOut,
}

/// What the caller does after a poll.
pub enum PollStep<E> {
    /// Stop: the job has ended.
    Finished(JobOutcome<E>),
    /// Pause for this many milliseconds, then poll again.
    WaitMs(u64),
}

/// Where the poller stands.
#[derive(Clone, Copy, Debug, PartialEq, Eq, Structural)]
pub enum PollerPhase {
    /// The job was just submitted; no answer has come yet.
    Submitted,
    /// At least one poll answered that the job is still being processed.
    Waiting,
    /// The job has ended; the poller is not used again.
    Finished,
}

/// What follows a poll that reported `status`, `elapsed_ms` after the job was
/// submitted: a result or a failure ends the job at once; a job still being
/// processed times out once the elapsed time exceeds the deadline, and is
/// polled again after the interval otherwise.
pub open spec fn next_step<E>(
    status: DownloadStatus<E>,
    elapsed_ms: u64,
    deadline_ms: u64,
    interval_ms: u64,
) -> PollStep<E> {
    match status {
        DownloadStatus::Ready(bytes) => PollStep::Finished(JobOutcome::Ready(bytes)),
        DownloadStatus::Failed(cause) => PollStep::Finished(JobOutcome::Failed(cause)),
        DownloadStatus::Processing => if elapsed_ms > deadline_ms {
            PollStep::Finished(JobOutcome::TimedOut)
        } else {
            PollStep::WaitMs(interval_ms)
        },
    }
}

/// How a job ends when its polls answer `responses` in turn, each with the
/// time elapsed since submission: the outcome and the index of the poll that
/// decided it, which is also the number of pauses before it. `None` when no
/// poll of the list ends the job.
pub open spec fn run_outcome<E>(
    responses: Seq<(DownloadStatus<E>, u64)>,
    deadline_ms: u64,
    interval_ms: u64,
) -> Option<(JobOutcome<E>, int)>
    decreases responses.len(),
{
    if responses.len() == 0 {
        None
    } else {
        match next_step(responses[0].0, responses[0].1, deadline_ms, interval_ms) {
            PollStep::Finished(outcome) => Some((outcome, 0)),
            PollStep::WaitMs(_) => match run_outcome(responses.drop_first(), deadline_ms, interval_ms) {
                Some((outcome, k)) => Some((outcome, k + 1)),
                None => None,
            },
        }
    }
}

/// Follows one submitted job.
pub struct JobPoller {
    /// Pause between two polls, in milliseconds.
    pub poll_interval_ms: u64,
    /// Deadline of the job, in milliseconds from its submission.
    pub deadline_ms: u64,
    /// Where the poller stands.
    pub phase: PollerPhase,
}

impl JobPoller {
    /// A poller for a job that was just submitted, which pauses
    /// `poll_interval_ms` between polls and gives up after the job deadline.
    pub fn new(poll_interval_ms: u64) -> (r: JobPoller)
        ensures
            r.poll_interval_ms == poll_interval_ms,
            r.deadline_ms == JOB_DEADLINE_MS,
            r.phase == PollerPhase::Submitted,
    {
        JobPoller { poll_interval_ms, deadline_ms: JOB_DEADLINE_MS, phase: PollerPhase::Submitted }
    }

    /// Takes the answer of one poll, made `elapsed_ms` after the job was
    /// submitted, and says what to do next. The poller moves to `Finished`
    /// when the job ends and to `Waiting` otherwise.
    pub fn on_response<E>(&mut self, status: DownloadStatus<E>, elapsed_ms: u64) -> (r: PollStep<E>)
        requires
            old(self).phase != PollerPhase::Finished,
        ensures
            r == next_step(status, elapsed_ms, old(self).deadline_ms, old(self).poll_interval_ms),
            final(self).poll_interval_ms == old(self).poll_interval_ms,
            final(self).deadline_ms == old(self).deadline_ms,
            final(self).phase == (if r is Finished {
                PollerPhase::Finished
            } else {
                PollerPhase::Waiting
            }),
    {
        match status {
            DownloadStatus::Ready(bytes) => {
                self.phase = PollerPhase::Finished;
                PollStep::Finished(JobOutcome::Ready(bytes))
            },
            DownloadStatus::Failed(cause) => {
                self.phase = PollerPhase::Finished;
                PollStep::Finished(JobOutcome::Failed(cause))
            },
            DownloadStatus::Processing => {
                if elapsed_ms > self.deadline_ms {
                    self.phase = PollerPhase::Finished;
                    PollStep::Finished(JobOutcome::TimedOut)
                } else {
                    self.phase = PollerPhase::Waiting;
                    PollStep::WaitMs(self.poll_interval_ms)
                }
            },
        }
    }
}

/// A job whose first poll reports the output ends with that output at the
/// first poll, with no pause.
pub proof fn ready_at_first_poll<E>(
    responses: Seq<(DownloadStatus<E>, u64)>,
    deadline_ms: u64,
    interval_ms: u64,
    bytes: Vec<u8>,
)
    requires
        responses.len() > 0,
        responses[0].0 == DownloadStatus::<E>::Ready(bytes),
    ensures
        run_outcome(responses, deadline_ms, interval_ms) == Some((JobOutcome::<E>::Ready(bytes), 0int)),
{
}

/// A job whose polls all report that it is still being processed times out,
/// at the latest at the first poll made after the deadline, whatever the
/// interval between polls.
pub proof fn processing_past_deadline_times_out<E>(
    responses: Seq<(DownloadStatus<E>, u64)>,
    deadline_ms: u64,
    interval_ms: u64,
    k: int,
)
    requires
        0 <= k < responses.len(),
        forall|i: int| 0 <= i <= k ==> (#[trigger] responses[i]).0 is Processing,
        responses[k].1 > deadline_ms,
    ensures
        run_outcome(responses, deadline_ms, interval_ms) matches Some((outcome, j)) && outcome
            is TimedOut && j <= k,
    decreases k,
{
    if k > 0 && responses[0].1 <= deadline_ms {
        let rest = responses.drop_first();
        assert forall|i: int| 0 <= i <= k - 1 implies (#[trigger] rest[i]).0 is Processing by {
            assert(rest[i] == responses[i + 1]);
        }
        processing_past_deadline_times_out(rest, deadline_ms, interval_ms, k - 1);
    } else {
        assert(responses[0].0 is Processing);
    }
}

/// A job ends with the reported failure at the first poll that reports one,
/// once the polls before it reported processing within the deadline: the
/// deadline is not waited for.
pub proof fn failure_ends_job<E>(
    responses: Seq<(DownloadStatus<E>, u64)>,
    deadline_ms: u64,
    interval_ms: u64,
    k: int,
    cause: E,
)
    requires
        0 <= k < responses.len(),
        forall|i: int|
            0 <= i < k ==> (#[trigger] responses[i]).0 is Processing && responses[i].1
                <= deadline_ms,
        responses[k].0 == DownloadStatus::<E>::Failed(cause),
    ensures
        run_outcome(responses, deadline_ms, interval_ms) == Some((JobOutcome::<E>::Failed(cause), k)),
    decreases k,
{
    if k > 0 {
        let rest = responses.drop_first();
        assert(responses[0].0 is Processing && responses[0].1 <= deadline_ms);
        assert forall|i: int| 0 <= i < k - 1 implies (#[trigger] rest[i]).0 is Processing
            && rest[i].1 <= deadline_ms by {
            assert(rest[i] == responses[i + 1]);
        }
        failure_ends_job(rest, deadline_ms, interval_ms, k - 1, cause);
    }
}

} // verus!
