use codedefender::poller::{DownloadStatus, JobOutcome, JobPoller, PollStep, PollerPhase, JOB_DEADLINE_MS};

fn step_is_wait(step: &PollStep<String>, ms: u64) -> bool {
    matches!(step, PollStep::WaitMs(w) if *w == ms)
}

#[test]
fn new_poller_uses_fixed_deadline() {
    let p = JobPoller::new(500);
    assert_eq!(p.poll_interval_ms, 500);
    assert_eq!(p.deadline_ms, 300_000);
    assert_eq!(JOB_DEADLINE_MS, 300_000);
    assert_eq!(p.phase, PollerPhase::Submitted);
}

#[test]
fn ready_on_first_poll_needs_no_wait() {
    let mut p = JobPoller::new(500);
    let step = p.on_response(DownloadStatus::<String>::Ready(vec![1, 2, 3]), 10);
    assert!(matches!(step, PollStep::Finished(JobOutcome::Ready(ref b)) if *b == vec![1, 2, 3]));
    assert_eq!(p.phase, PollerPhase::Finished);
}

#[test]
fn processing_waits_for_interval() {
    let mut p = JobPoller::new(750);
    let step = p.on_response(DownloadStatus::<String>::Processing, 0);
    assert!(step_is_wait(&step, 750));
    assert_eq!(p.phase, PollerPhase::Waiting);
    let step = p.on_response(DownloadStatus::<String>::Processing, JOB_DEADLINE_MS);
    assert!(step_is_wait(&step, 750));
}

#[test]
fn processing_past_deadline_times_out() {
    for interval in [1u64, 500, 1_000_000] {
        let mut p = JobPoller::new(interval);
        let mut elapsed: u64 = 0;
        let outcome = loop {
            match p.on_response(DownloadStatus::<String>::Processing, elapsed) {
                PollStep::Finished(o) => break o,
                PollStep::WaitMs(w) => elapsed += w,
            }
        };
        assert!(matches!(outcome, JobOutcome::TimedOut));
        assert!(elapsed > JOB_DEADLINE_MS);
        assert_eq!(p.phase, PollerPhase::Finished);
    }
}

#[test]
fn failure_stops_before_deadline() {
    let mut p = JobPoller::new(500);
    assert!(step_is_wait(&p.on_response(DownloadStatus::Processing, 0), 500));
    assert!(step_is_wait(&p.on_response(DownloadStatus::Processing, 500), 500));
    let step = p.on_response(DownloadStatus::Failed("rejected".to_string()), 1000);
    assert!(matches!(step, PollStep::Finished(JobOutcome::Failed(ref c)) if c == "rejected"));
    assert_eq!(p.phase, PollerPhase::Finished);
}

#[test]
fn failure_and_ready_win_over_deadline() {
    let mut p = JobPoller::new(500);
    let step = p.on_response(DownloadStatus::Failed("late".to_string()), JOB_DEADLINE_MS + 1);
    assert!(matches!(step, PollStep::Finished(JobOutcome::Failed(ref c)) if c == "late"));
    let mut p = JobPoller::new(500);
    let step = p.on_response(DownloadStatus::<String>::Ready(vec![]), JOB_DEADLINE_MS + 1);
    assert!(matches!(step, PollStep::Finished(JobOutcome::Ready(ref b)) if b.is_empty()));
}
