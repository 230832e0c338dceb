//! The idempotent install pipeline: the per-record retry machine around the
//! remote "add note" call. The driver performs one send per request of the
//! machine and hands the result back; the machine decides whether to retry
//! after a delay, to treat the reply as an already-installed duplicate, or to
//! report the record's outcome. One record's outcome never affects
//! another's.

use vstd::prelude::*;
use crate::anki_connect::AnkiError;
use crate::text::{contains_seq, contains_substring};

verus! {

/// The retry cap: at most this many send attempts per record.
pub const MAX_SEND_ATTEMPTS: u64 = 5;

/// Per-record result of an install attempt.
#[derive(Clone, Debug, PartialEq, Eq)]
pub enum InstallOutcome {
    /// The note was added.
    Installed,
    /// The remote reported the note as a duplicate of an existing one, which
    /// repeated runs treat as success.
    SkippedAsDuplicate,
    /// The attempt failed for the given reason, without halting the loop.
    Failed(AnkiError),
}

/// What to do with one failed send.
#[derive(Clone, Copy, Debug, PartialEq, Eq, Structural)]
pub enum ErrorDisposition {
    /// Try the same request again: the connection could not be established.
    Retry,
    /// Count the record as already installed.
    TreatAsSuccess,
    /// Report the record as failed.
    Fail,
}

/// The error text with which the remote reports an attempt to re-add an
/// existing note.
pub open spec fn is_duplicate_error_message(msg: Seq<char>) -> bool {
    contains_seq(msg, "cannot create note because it is a duplicate"@)
}

/// The retry predicate of the install path: retry only on a
/// connection-establishment failure; reclassify a duplicate report as
/// success; anything else fails the record.
pub open spec fn spec_classify(e: AnkiError) -> ErrorDisposition {
    match e {
        AnkiError::HttpError { connection_refused, .. } => if connection_refused {
            ErrorDisposition::Retry
        } else {
            ErrorDisposition::Fail
        },
        AnkiError::ApiError(msg) => if is_duplicate_error_message(msg@) {
            ErrorDisposition::TreatAsSuccess
        } else {
            ErrorDisposition::Fail
        },
        _ => ErrorDisposition::Fail,
    }
}

/// Classifies one failed send, exactly as `spec_classify` says.
pub fn classify_error(e: &AnkiError) -> (r: ErrorDisposition)
    ensures
        r == spec_classify(*e),
{
    match e {
        AnkiError::HttpError { connection_refused, .. } => {
            if *connection_refused {
                ErrorDisposition::Retry
            } else {
                ErrorDisposition::Fail
            }
        },
        AnkiError::ApiError(msg) => {
            if contains_substring(msg.as_str(), "cannot create note because it is a duplicate") {
                ErrorDisposition::TreatAsSuccess
            } else {
                ErrorDisposition::Fail
            }
        },
        _ => ErrorDisposition::Fail,
    }
}

/// The delay before retry number `attempts + 1`, doubling per attempt.
pub open spec fn spec_retry_delay_ms(attempts: int) -> u64 {
    if attempts <= 0 {
        100
    } else if attempts == 1 {
        200
    } else if attempts == 2 {
        400
    } else if attempts == 3 {
        800
    } else {
        1600
    }
}

/// What the machine asks the driver to do next for the current record.
#[derive(Clone, Debug, PartialEq, Eq)]
pub enum SendStep {
    /// The record's outcome is settled.
    Done(InstallOutcome),
    /// Wait this many milliseconds, then send the identical request again.
    RetryAfter(u64),
}

/// The transition of the per-record retry machine: `attempts` failed
/// connection attempts so far, and the result of the send just performed.
pub open spec fn spec_send_step(attempts: int, result: Result<i64, AnkiError>) -> SendStep {
    match result {
        Ok(_) => SendStep::Done(InstallOutcome::Installed),
        Err(e) => match spec_classify(e) {
            ErrorDisposition::TreatAsSuccess => SendStep::Done(InstallOutcome::SkippedAsDuplicate),
            ErrorDisposition::Fail => SendStep::Done(InstallOutcome::Failed(e)),
            ErrorDisposition::Retry => if attempts + 1 < MAX_SEND_ATTEMPTS as int {
                SendStep::RetryAfter(spec_retry_delay_ms(attempts))
            } else {
                SendStep::Done(InstallOutcome::Failed(e))
            },
        },
    }
}

/// The per-record retry state: how many sends have failed on connection so
/// far.
pub struct SendState {
    pub attempts: u64,
}

impl SendState {
    /// A fresh record: no attempts made yet.
    pub fn new() -> (r: SendState)
        ensures
            r.attempts == 0,
    {
        SendState { attempts: 0 }
    }

    /// Feeds the result of one send and decides the next move, exactly as
    /// `spec_send_step` says; the attempt counter grows by one exactly when
    /// a retry is requested.
    pub fn on_send_result(&mut self, result: Result<i64, AnkiError>) -> (r: SendStep)
        requires
            old(self).attempts < MAX_SEND_ATTEMPTS,
        ensures
            r == spec_send_step(old(self).attempts as int, result),
            r matches SendStep::RetryAfter(_) ==> final(self).attempts == old(self).attempts + 1,
            r matches SendStep::Done(_) ==> final(self).attempts == old(self).attempts,
    {
        match result {
            Ok(_) => SendStep::Done(InstallOutcome::Installed),
            Err(e) => {
                match classify_error(&e) {
                    ErrorDisposition::TreatAsSuccess => {
                        SendStep::Done(InstallOutcome::SkippedAsDuplicate)
                    },
                    ErrorDisposition::Fail => SendStep::Done(InstallOutcome::Failed(e)),
                    ErrorDisposition::Retry => {
                        if self.attempts + 1 < MAX_SEND_ATTEMPTS {
                            let delay = if self.attempts == 0 {
                                100
                            } else if self.attempts == 1 {
                                200
                            } else if self.attempts == 2 {
                                400
                            } else if self.attempts == 3 {
                                800
                            } else {
                                1600
                            };
                            self.attempts = self.attempts + 1;
                            SendStep::RetryAfter(delay)
                        } else {
                            SendStep::Done(InstallOutcome::Failed(e))
                        }
                    },
                }
            },
        }
    }
}

/// The outcome a record reaches when its successive sends return `results`,
/// starting from `attempts` failed connection attempts; `None` if the
/// machine still wants another send after consuming them all.
pub open spec fn spec_install_run(attempts: int, results: Seq<Result<i64, AnkiError>>) -> Option<
    InstallOutcome,
>
    decreases results.len(),
{
    if results.len() == 0 {
        None
    } else {
        match spec_send_step(attempts, results[0]) {
            SendStep::Done(o) => Some(o),
            SendStep::RetryAfter(_) => spec_install_run(attempts + 1, results.drop_first()),
        }
    }
}

/// A send result that failed to establish a connection.
pub open spec fn is_connection_failure(result: Result<i64, AnkiError>) -> bool {
    result matches Err(AnkiError::HttpError { connection_refused, .. }) && connection_refused
}

/// A reply the remote answers with a duplicate report settles the record as
/// `SkippedAsDuplicate`, never as `Failed`, whatever the attempt count.
pub proof fn lemma_duplicate_reported_as_skipped(
    attempts: int,
    msg: String,
    rest: Seq<Result<i64, AnkiError>>,
)
    requires
        is_duplicate_error_message(msg@),
    ensures
        spec_send_step(attempts, Err(AnkiError::ApiError(msg))) == SendStep::Done(
            InstallOutcome::SkippedAsDuplicate,
        ),
        spec_install_run(
            attempts,
            seq![Err::<i64, AnkiError>(AnkiError::ApiError(msg))] + rest,
        ) == Some(InstallOutcome::SkippedAsDuplicate),
{
    let results = seq![Err::<i64, AnkiError>(AnkiError::ApiError(msg))] + rest;
    assert(results[0] == Err::<i64, AnkiError>(AnkiError::ApiError(msg)));
}

/// A persistent connection failure exhausts the retry cap and settles the
/// record as `Failed` carrying the connection error, instead of asking for
/// sends without end.
pub proof fn lemma_persistent_connection_failure(
    attempts: int,
    results: Seq<Result<i64, AnkiError>>,
)
    requires
        0 <= attempts < MAX_SEND_ATTEMPTS as int,
        results.len() >= MAX_SEND_ATTEMPTS as int - attempts,
        forall|i: int| 0 <= i < results.len() ==> is_connection_failure(#[trigger] results[i]),
    ensures
        spec_install_run(attempts, results) matches Some(o) && o matches InstallOutcome::Failed(e)
            && Err::<i64, AnkiError>(e) == results[MAX_SEND_ATTEMPTS as int - 1 - attempts],
    decreases MAX_SEND_ATTEMPTS as int - attempts,
{
    assert(is_connection_failure(results[0]));
    if attempts + 1 < MAX_SEND_ATTEMPTS as int {
        lemma_persistent_connection_failure(attempts + 1, results.drop_first());
    }
}

/// Aggregate of an install run, for reporting only.
#[derive(Clone, Copy, Debug, PartialEq, Eq, Structural)]
pub struct InstallSummary {
    pub installed: usize,
    pub skipped: usize,
    pub failed: usize,
}

/// How many outcomes are `Installed`.
pub open spec fn count_installed(s: Seq<InstallOutcome>) -> int
    decreases s.len(),
{
    if s.len() == 0 {
        0
    } else {
        count_installed(s.drop_last()) + if s.last() is Installed {
            1int
        } else {
            0int
        }
    }
}

/// How many outcomes are `SkippedAsDuplicate`.
pub open spec fn count_skipped(s: Seq<InstallOutcome>) -> int
    decreases s.len(),
{
    if s.len() == 0 {
        0
    } else {
        count_skipped(s.drop_last()) + if s.last() is SkippedAsDuplicate {
            1int
        } else {
            0int
        }
    }
}

/// How many outcomes are `Failed`.
pub open spec fn count_failed(s: Seq<InstallOutcome>) -> int
    decreases s.len(),
{
    if s.len() == 0 {
        0
    } else {
        count_failed(s.drop_last()) + if s.last() is Failed {
            1int
        } else {
            0int
        }
    }
}

/// Counts the outcomes of a run by kind; the three counts partition the
/// list, so the summary distinguishes "all installed", "some duplicates
/// skipped" and "some failed".
pub fn summarize(outcomes: &Vec<InstallOutcome>) -> (r: InstallSummary)
    ensures
        r.installed == count_installed(outcomes@),
        r.skipped == count_skipped(outcomes@),
        r.failed == count_failed(outcomes@),
        r.installed + r.skipped + r.failed == outcomes@.len(),
{
    let mut installed: usize = 0;
    let mut skipped: usize = 0;
    let mut failed: usize = 0;
    let mut i: usize = 0;
    while i < outcomes.len()
        invariant
            i <= outcomes.len(),
            installed == count_installed(outcomes@.subrange(0, i as int)),
            skipped == count_skipped(outcomes@.subrange(0, i as int)),
            failed == count_failed(outcomes@.subrange(0, i as int)),
            installed + skipped + failed == i,
        decreases outcomes.len() - i,
    {
        proof {
            let p = outcomes@.subrange(0, i + 1 as int);
            assert(p.drop_last() =~= outcomes@.subrange(0, i as int));
            assert(p.last() == outcomes@[i as int]);
        }
        match &outcomes[i] {
            InstallOutcome::Installed => {
                installed = installed + 1;
            },
            InstallOutcome::SkippedAsDuplicate => {
                skipped = skipped + 1;
            },
            InstallOutcome::Failed(_) => {
                failed = failed + 1;
            },
        }
        i = i + 1;
    }
    proof {
        assert(outcomes@.subrange(0, outcomes@.len() as int) =~= outcomes@);
    }
    InstallSummary { installed, skipped, failed }
}

} // verus!
