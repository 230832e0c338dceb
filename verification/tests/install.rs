use wanikanji::anki_connect::AnkiError;
use wanikanji::install::{
    classify_error, summarize, ErrorDisposition, InstallOutcome, SendState, SendStep,
    MAX_SEND_ATTEMPTS,
};

fn connection_error() -> AnkiError {
    AnkiError::HttpError {
        connection_refused: true,
        message: "connection refused".to_owned(),
    }
}

fn duplicate_error() -> AnkiError {
    AnkiError::ApiError("cannot create note because it is a duplicate".to_owned())
}

#[test]
fn classify_connection_failure_as_retry() {
    assert_eq!(classify_error(&connection_error()), ErrorDisposition::Retry);
}

#[test]
fn classify_other_transport_failure_as_fail() {
    let e = AnkiError::HttpError {
        connection_refused: false,
        message: "timed out after connect".to_owned(),
    };
    assert_eq!(classify_error(&e), ErrorDisposition::Fail);
}

#[test]
fn classify_duplicate_report_as_success() {
    assert_eq!(classify_error(&duplicate_error()), ErrorDisposition::TreatAsSuccess);
}

#[test]
fn classify_duplicate_phrase_inside_longer_message() {
    let e = AnkiError::ApiError(
        "addNote: cannot create note because it is a duplicate (deck)".to_owned(),
    );
    assert_eq!(classify_error(&e), ErrorDisposition::TreatAsSuccess);
}

#[test]
fn classify_other_api_error_as_fail() {
    let e = AnkiError::ApiError("model was not found".to_owned());
    assert_eq!(classify_error(&e), ErrorDisposition::Fail);
}

#[test]
fn classify_empty_response_as_fail() {
    assert_eq!(classify_error(&AnkiError::EmptyResponse), ErrorDisposition::Fail);
}

#[test]
fn success_settles_as_installed() {
    let mut state = SendState::new();
    let step = state.on_send_result(Ok(42));
    assert_eq!(step, SendStep::Done(InstallOutcome::Installed));
}

#[test]
fn duplicate_settles_as_skipped_not_failed() {
    let mut state = SendState::new();
    let step = state.on_send_result(Err(duplicate_error()));
    assert_eq!(step, SendStep::Done(InstallOutcome::SkippedAsDuplicate));
}

#[test]
fn duplicate_after_retries_still_settles_as_skipped() {
    let mut state = SendState::new();
    let step = state.on_send_result(Err(connection_error()));
    assert_eq!(step, SendStep::RetryAfter(100));
    let step = state.on_send_result(Err(duplicate_error()));
    assert_eq!(step, SendStep::Done(InstallOutcome::SkippedAsDuplicate));
}

#[test]
fn other_api_error_settles_as_failed() {
    let mut state = SendState::new();
    let step = state.on_send_result(Err(AnkiError::ApiError("model was not found".to_owned())));
    assert_eq!(
        step,
        SendStep::Done(InstallOutcome::Failed(AnkiError::ApiError(
            "model was not found".to_owned()
        )))
    );
}

#[test]
fn persistent_connection_failure_exhausts_the_cap() {
    let mut state = SendState::new();
    let mut sends: u64 = 0;
    let outcome = loop {
        let step = state.on_send_result(Err(connection_error()));
        sends += 1;
        match step {
            SendStep::RetryAfter(delay) => {
                // Bounded exponential backoff, doubling per attempt.
                assert_eq!(delay, 100 * (1 << (sends - 1)));
            }
            SendStep::Done(outcome) => break outcome,
        }
        assert!(sends < 100, "the retry loop must be bounded");
    };
    assert_eq!(sends, MAX_SEND_ATTEMPTS);
    assert_eq!(outcome, InstallOutcome::Failed(connection_error()));
}

#[test]
fn summarize_partitions_outcomes() {
    let outcomes = vec![
        InstallOutcome::Installed,
        InstallOutcome::SkippedAsDuplicate,
        InstallOutcome::Installed,
        InstallOutcome::Failed(AnkiError::EmptyResponse),
        InstallOutcome::SkippedAsDuplicate,
    ];
    let summary = summarize(&outcomes);
    assert_eq!(summary.installed, 2);
    assert_eq!(summary.skipped, 2);
    assert_eq!(summary.failed, 1);
}

#[test]
fn summarize_empty_run() {
    let summary = summarize(&Vec::new());
    assert_eq!(summary.installed, 0);
    assert_eq!(summary.skipped, 0);
    assert_eq!(summary.failed, 0);
}
