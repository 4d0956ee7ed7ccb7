//! Tracking for asynchronously-running background jobs.
//!
//! A job is started by handing a work function to a spawning layer; the work
//! function receives a [`Monitor`] through which it reports human-readable
//! progress messages. Observers poll the same monitor for the latest status,
//! the outcome, and timing information. When the work function returns, its
//! return value is classified into a [`JobReturnStatus`] — a success flag
//! plus an optional final message — and recorded exactly once in the
//! monitor's write-once completion record; abnormal termination is recorded
//! as a failure with a fixed diagnostic. A keyed registry, [`Girlboss`],
//! stores monitors under integer ids with insert-only-if-absent-or-finished
//! semantics and age-based cleanup.
//!
//! The sequential semantics of one job's state — what starting, reporting
//! and finishing do, and what the queries return — is stated and proved on
//! [`JobRecord`]; a [`Monitor`] holds the same data in concurrently
//! readable cells, so its observations are constrained only by what holds
//! of every interleaving.

mod clock;
mod error;
mod manager;
mod monitor;
mod record;
mod return_status;
mod return_value;
mod status;
mod traits;

pub use error::Error;
pub use manager::{
    cleanup_cutoff, expired, is_expired, lemma_started_job_is_registered, Girlboss,
};
pub use monitor::{lemma_same_state_equivalence, Monitor};
pub use record::{
    completion_verdict, lemma_abnormal_finish_reports_diagnostic,
    lemma_elapsed_frozen_when_finished, lemma_elapsed_monotonic_while_running,
    lemma_failed_finish_reports_reason, lemma_finish_sets_finished_at,
    lemma_fresh_record_is_unfinished, lemma_later_report_wins,
    lemma_report_preserves_completion, lemma_successful_text_finish, starting_message,
    verdict_of, CompletionRecord, JobRecord,
};
pub use return_status::{JobReturnStatus, ToReturnStatus};
pub use return_value::JobReturnValue;
pub use status::JobStatus;
pub use traits::{message_view, ErrorText, ExitReport, JobOutput};
