//! The life of one download job as a step function: what the engine does next,
//! given where the job stands and what the last piece of file or network work
//! reported.
//!
//! A job first looks at an existing destination; when that is unusable it
//! makes attempts into the partial file, waiting between retryable failures;
//! a finished transfer is verified, and only a verified partial file is
//! published onto the destination.

use vstd::prelude::*;

use super::retry::{after_failed_attempt, retry_decision, RetryDecision};
use super::DownloadError;

verus! {

/// Where a job stands.
#[derive(Debug, Clone, Copy, PartialEq, Eq, Structural)]
pub enum JobStage {
    /// Looking at an existing destination.
    Checking,
    /// Attempt `attempt` (counted from 1) is transferring into the partial file.
    Transferring { attempt: usize },
    /// Waiting before attempt `attempt`.
    Waiting { attempt: usize },
    /// The partial file of a finished transfer is being verified.
    Verifying,
    /// The verified partial file is being renamed onto the destination.
    Publishing,
    /// Nothing more to do.
    Done,
}

/// What the last piece of work reported.
#[derive(Debug)]
pub enum JobEvent {
    /// The destination exists and verifies.
    ExistingValid,
    /// The destination is missing or does not verify.
    ExistingUnusable,
    /// The transfer of the current attempt finished.
    TransferSucceeded,
    /// The transfer of the current attempt failed.
    TransferFailed(DownloadError),
    /// The wait before the next attempt is over.
    WaitOver,
    /// The partial file matches the job's size and checksum.
    PartVerified,
    /// The partial file was renamed onto the destination.
    Published,
    /// The job was cancelled.
    Cancelled,
    /// A file operation, or the verification of the partial file, failed.
    Failed(DownloadError),
}

/// What the engine does next.
#[derive(Debug)]
pub enum JobAction {
    /// Count the verified existing destination and stop.
    UseExisting,
    /// Make attempt `attempt`.
    Transfer { attempt: usize },
    /// Report the failure `reason`, wait `delay_ms`, then make attempt `attempt`.
    Wait { attempt: usize, delay_ms: u64, reason: DownloadError },
    /// Verify the partial file.
    VerifyPart,
    /// Rename the partial file onto the destination.
    PublishPart,
    /// Report the published destination and stop.
    Finish,
    /// Report the error and stop.
    Fail(DownloadError),
}

/// Whether `r` ends the job with a worker fault whose message is `m`.
pub open spec fn worker_fault(r: (JobStage, JobAction), m: Seq<char>) -> bool {
    r.0 == JobStage::Done && (r.1 matches JobAction::Fail(DownloadError::Worker(t)) && t@ == m)
}

/// The step owed for `event` at `stage`, for jobs of at most `max_attempts`
/// attempts whose backoff starts at `initial_backoff_ms`. Cancellation and
/// failed file work end the job with their error; an event that the stage
/// does not expect ends it with a worker fault.
pub open spec fn job_step_ok(
    stage: JobStage,
    event: JobEvent,
    max_attempts: usize,
    initial_backoff_ms: u64,
    r: (JobStage, JobAction),
) -> bool {
    match event {
        JobEvent::Cancelled => r.0 == JobStage::Done && (r.1 matches JobAction::Fail(DownloadError::Cancelled)),
        JobEvent::Failed(e) => r.0 == JobStage::Done && (r.1 matches JobAction::Fail(x) && x == e),
        JobEvent::ExistingValid => match stage {
            JobStage::Checking => r.0 == JobStage::Done && r.1 is UseExisting,
            _ => worker_fault(r, "unexpected job event"@),
        },
        JobEvent::ExistingUnusable => match stage {
            JobStage::Checking => if max_attempts >= 1 {
                r.0 == JobStage::Transferring { attempt: 1 } && (r.1 matches JobAction::Transfer {
                    attempt,
                } && attempt == 1)
            } else {
                worker_fault(r, "attempt loop ended"@)
            },
            _ => worker_fault(r, "unexpected job event"@),
        },
        JobEvent::TransferSucceeded => match stage {
            JobStage::Transferring { .. } => r.0 == JobStage::Verifying && r.1 is VerifyPart,
            _ => worker_fault(r, "unexpected job event"@),
        },
        JobEvent::TransferFailed(e) => match stage {
            JobStage::Transferring { attempt } => match retry_decision(e, attempt, max_attempts, initial_backoff_ms) {
                RetryDecision::Retry { next_attempt, delay_ms } => r.0 == JobStage::Waiting {
                    attempt: next_attempt,
                } && (r.1 matches JobAction::Wait { attempt: a, delay_ms: d, reason } && a
                    == next_attempt && d == delay_ms && reason == e),
                RetryDecision::GiveUp => r.0 == JobStage::Done && (r.1 matches JobAction::Fail(x) && x
                    == e),
            },
            _ => worker_fault(r, "unexpected job event"@),
        },
        JobEvent::WaitOver => match stage {
            JobStage::Waiting { attempt } => r.0 == JobStage::Transferring { attempt } && (r.1 matches JobAction::Transfer {
                attempt: a,
            } && a == attempt),
            _ => worker_fault(r, "unexpected job event"@),
        },
        JobEvent::PartVerified => match stage {
            JobStage::Verifying => r.0 == JobStage::Publishing && r.1 is PublishPart,
            _ => worker_fault(r, "unexpected job event"@),
        },
        JobEvent::Published => match stage {
            JobStage::Publishing => r.0 == JobStage::Done && r.1 is Finish,
            _ => worker_fault(r, "unexpected job event"@),
        },
    }
}

fn unexpected(message: &str) -> (r: (JobStage, JobAction))
    ensures
        worker_fault(r, message@),
{
    (JobStage::Done, JobAction::Fail(DownloadError::Worker(String::from_str(message))))
}

/// The next stage of a job and what to do, for `event` at `stage` (see
/// `job_step_ok`).
pub fn job_step(stage: JobStage, event: JobEvent, max_attempts: usize, initial_backoff_ms: u64) -> (r: (
    JobStage,
    JobAction,
))
    ensures
        job_step_ok(stage, event, max_attempts, initial_backoff_ms, r),
{
    match event {
        JobEvent::Cancelled => (JobStage::Done, JobAction::Fail(DownloadError::Cancelled)),
        JobEvent::Failed(e) => (JobStage::Done, JobAction::Fail(e)),
        JobEvent::ExistingValid => match stage {
            JobStage::Checking => (JobStage::Done, JobAction::UseExisting),
            _ => unexpected("unexpected job event"),
        },
        JobEvent::ExistingUnusable => match stage {
            JobStage::Checking => {
                if max_attempts >= 1 {
                    (JobStage::Transferring { attempt: 1 }, JobAction::Transfer { attempt: 1 })
                } else {
                    unexpected("attempt loop ended")
                }
            },
            _ => unexpected("unexpected job event"),
        },
        JobEvent::TransferSucceeded => match stage {
            JobStage::Transferring { .. } => (JobStage::Verifying, JobAction::VerifyPart),
            _ => unexpected("unexpected job event"),
        },
        JobEvent::TransferFailed(e) => match stage {
            JobStage::Transferring { attempt } => {
                match after_failed_attempt(&e, attempt, max_attempts, initial_backoff_ms) {
                    RetryDecision::Retry { next_attempt, delay_ms } => (
                        JobStage::Waiting { attempt: next_attempt },
                        JobAction::Wait { attempt: next_attempt, delay_ms, reason: e },
                    ),
                    RetryDecision::GiveUp => (JobStage::Done, JobAction::Fail(e)),
                }
            },
            _ => unexpected("unexpected job event"),
        },
        JobEvent::WaitOver => match stage {
            JobStage::Waiting { attempt } => (JobStage::Transferring { attempt }, JobAction::Transfer { attempt }),
            _ => unexpected("unexpected job event"),
        },
        JobEvent::PartVerified => match stage {
            JobStage::Verifying => (JobStage::Publishing, JobAction::PublishPart),
            _ => unexpected("unexpected job event"),
        },
        JobEvent::Published => match stage {
            JobStage::Publishing => (JobStage::Done, JobAction::Finish),
            _ => unexpected("unexpected job event"),
        },
    }
}

/// Failed work fails the job: when a file operation or the verification of
/// the partial file fails, at whatever stage, the job ends with that very
/// error and nothing is used, published or reported as finished; when the job
/// is cancelled, it ends with `Cancelled`.
pub proof fn law_failed_work_fails_the_job(
    stage: JobStage,
    error: DownloadError,
    max_attempts: usize,
    initial_backoff_ms: u64,
    failed: (JobStage, JobAction),
    cancelled: (JobStage, JobAction),
)
    requires
        job_step_ok(stage, JobEvent::Failed(error), max_attempts, initial_backoff_ms, failed),
        job_step_ok(stage, JobEvent::Cancelled, max_attempts, initial_backoff_ms, cancelled),
    ensures
        failed.0 == JobStage::Done,
        failed.1 matches JobAction::Fail(e) && e == error,
        !(failed.1 is Finish) && !(failed.1 is UseExisting) && !(failed.1 is PublishPart),
        cancelled.0 == JobStage::Done,
        cancelled.1 matches JobAction::Fail(DownloadError::Cancelled),
{
}

/// Attempt numbers a stage holds lie between 1 and `max_attempts`.
pub open spec fn stage_ok(stage: JobStage, max_attempts: usize) -> bool {
    match stage {
        JobStage::Transferring { attempt } => 1 <= attempt <= max_attempts,
        JobStage::Waiting { attempt } => 1 <= attempt <= max_attempts,
        _ => true,
    }
}

/// Only verified data is published: a partial file is renamed onto the
/// destination only right after it verified, it is verified only right after
/// a transfer finished, and a failed or cancelled transfer leads to neither.
pub proof fn law_publish_only_after_verification(
    stage: JobStage,
    event: JobEvent,
    max_attempts: usize,
    initial_backoff_ms: u64,
    r: (JobStage, JobAction),
)
    requires
        job_step_ok(stage, event, max_attempts, initial_backoff_ms, r),
    ensures
        r.1 is PublishPart ==> stage == JobStage::Verifying && event is PartVerified,
        r.1 is VerifyPart ==> stage is Transferring && event is TransferSucceeded,
        event is TransferFailed || event is Cancelled || event is Failed ==> !(r.1 is PublishPart)
            && !(r.1 is VerifyPart),
{
}

/// Attempts stay within the limit: from a stage whose attempt numbers lie
/// in 1..=`max_attempts`, every step leads to such a stage, and every attempt
/// it starts or waits for is numbered within that range.
pub proof fn law_attempts_within_limit(
    stage: JobStage,
    event: JobEvent,
    max_attempts: usize,
    initial_backoff_ms: u64,
    r: (JobStage, JobAction),
)
    requires
        stage_ok(stage, max_attempts),
        job_step_ok(stage, event, max_attempts, initial_backoff_ms, r),
    ensures
        stage_ok(r.0, max_attempts),
        r.1 matches JobAction::Transfer { attempt } ==> 1 <= attempt <= max_attempts,
        r.1 matches JobAction::Wait { attempt, .. } ==> 1 <= attempt <= max_attempts,
{
}

} // verus!
