use texcompile_client::envelope::StatusEnvelope;
use texcompile_client::errors::ClientError;
use texcompile_client::poll::{
    await_completion, poll_step, PollOutcome, PollStep, MAX_POLL_ATTEMPTS, POLL_INTERVAL_SECS,
};
use texcompile_client::status::{CompilationStatus, StatusData};

fn reply(status: &str) -> StatusEnvelope {
    StatusEnvelope {
        success: true,
        data: Some(StatusData {
            status: String::from(status),
            download_url: None,
            error_message: None,
            duration: None,
            queue_position: None,
        }),
        error: None,
    }
}

fn completed_reply(url: &str, duration: Option<u64>) -> StatusEnvelope {
    let mut e = reply("Completed");
    if let Some(d) = e.data.as_mut() {
        d.download_url = Some(String::from(url));
        d.duration = duration;
    }
    e
}

fn failed_reply(message: Option<&str>, duration: Option<u64>) -> StatusEnvelope {
    let mut e = reply("Failed");
    if let Some(d) = e.data.as_mut() {
        d.error_message = message.map(String::from);
        d.duration = duration;
    }
    e
}

#[test]
fn polling_policy_constants() {
    assert_eq!(MAX_POLL_ATTEMPTS, 120);
    assert_eq!(POLL_INTERVAL_SECS, 5);
}

#[test]
fn status_strings_parse_to_their_states() {
    assert_eq!(CompilationStatus::from_str("Queued"), CompilationStatus::Queued);
    assert_eq!(CompilationStatus::from_str("Processing"), CompilationStatus::Processing);
    assert_eq!(CompilationStatus::from_str("Completed"), CompilationStatus::Completed);
    assert_eq!(CompilationStatus::from_str("Failed"), CompilationStatus::Failed);
    assert_eq!(
        CompilationStatus::from_str("Archived"),
        CompilationStatus::Unknown(String::from("Archived"))
    );
}

#[test]
fn queued_reply_continues_with_queue_details() {
    let mut e = reply("Queued");
    if let Some(d) = e.data.as_mut() {
        d.queue_position = Some(3);
        d.duration = Some(5000);
    }
    match poll_step(&e) {
        PollStep::Continue { note } => {
            assert_eq!(note, "Status: Queued (position: 3) | Time in queue: 5 сек.")
        },
        _ => panic!("expected to continue polling"),
    }
}

#[test]
fn zero_or_missing_queue_position_is_not_shown() {
    let mut e = reply("Queued");
    if let Some(d) = e.data.as_mut() {
        d.queue_position = Some(0);
    }
    match poll_step(&e) {
        PollStep::Continue { note } => {
            assert_eq!(note, "Status: Queued | Time in queue: неизвестно")
        },
        _ => panic!("expected to continue polling"),
    }
    match poll_step(&reply("Queued")) {
        PollStep::Continue { note } => {
            assert_eq!(note, "Status: Queued | Time in queue: неизвестно")
        },
        _ => panic!("expected to continue polling"),
    }
}

#[test]
fn processing_reply_continues_with_elapsed_time() {
    let mut e = reply("Processing");
    if let Some(d) = e.data.as_mut() {
        d.duration = Some(65000);
    }
    match poll_step(&e) {
        PollStep::Continue { note } => {
            assert_eq!(note, "Status: Processing... | Time: 1 мин. 5 сек.")
        },
        _ => panic!("expected to continue polling"),
    }
}

#[test]
fn unrecognized_status_is_logged_and_polling_goes_on() {
    match poll_step(&reply("Archived")) {
        PollStep::Continue { note } => assert_eq!(note, "Status: Archived (unknown)"),
        _ => panic!("expected to continue polling"),
    }
}

#[test]
fn completed_reply_yields_the_download_reference() {
    match poll_step(&completed_reply("/api/download/7", Some(30000))) {
        PollStep::Done { url, note } => {
            assert_eq!(url, "/api/download/7");
            assert_eq!(note, "Status: Completed! | Compilation time: 30 сек.");
        },
        _ => panic!("expected the run to finish"),
    }
}

#[test]
fn completed_reply_without_a_reference_is_a_protocol_error() {
    match poll_step(&reply("Completed")) {
        PollStep::Fail { error: ClientError::ProtocolError { message } } => {
            assert_eq!(message, "No download URL in completed status")
        },
        _ => panic!("expected a protocol error"),
    }
}

#[test]
fn failed_envelope_aborts_with_the_service_error() {
    let e = StatusEnvelope {
        success: false,
        data: None,
        error: Some(String::from("gone")),
    };
    match poll_step(&e) {
        PollStep::Fail { error: ClientError::ProtocolError { message } } => {
            assert_eq!(message, "gone")
        },
        _ => panic!("expected a protocol error"),
    }
}

#[test]
fn success_envelope_without_data_is_a_protocol_error() {
    let e = StatusEnvelope { success: true, data: None, error: None };
    match poll_step(&e) {
        PollStep::Fail { error: ClientError::ProtocolError { message } } => {
            assert_eq!(message, "No status data in response")
        },
        _ => panic!("expected a protocol error"),
    }
}

#[test]
fn completion_after_three_waits_issues_four_requests() {
    let run = await_completion(&vec![
        reply("Queued"),
        reply("Queued"),
        reply("Processing"),
        completed_reply("/api/download/9", Some(20000)),
    ]);
    assert_eq!(run.requests, 4);
    assert_eq!(run.sleeps, 3);
    match run.outcome {
        PollOutcome::Success { url } => assert_eq!(url, "/api/download/9"),
        _ => panic!("expected the run to succeed"),
    }
}

#[test]
fn terminal_failure_stops_the_run_at_once() {
    let run = await_completion(&vec![
        failed_reply(Some("missing package"), Some(12000)),
        reply("Queued"),
        reply("Queued"),
    ]);
    assert_eq!(run.requests, 1);
    assert_eq!(run.sleeps, 0);
    match run.outcome {
        PollOutcome::Failure {
            error: ClientError::CompilationFailed { message, duration },
        } => {
            assert_eq!(message, "missing package");
            assert_eq!(duration, "12 сек.");
        },
        _ => panic!("expected a compilation failure"),
    }
}

#[test]
fn failure_without_a_message_reports_a_generic_error() {
    let run = await_completion(&vec![failed_reply(None, None)]);
    match run.outcome {
        PollOutcome::Failure {
            error: ClientError::CompilationFailed { message, duration },
        } => {
            assert_eq!(message, "Unknown error");
            assert_eq!(duration, "неизвестно");
        },
        _ => panic!("expected a compilation failure"),
    }
}

#[test]
fn exhausting_the_budget_times_out_without_a_final_sleep() {
    let replies: Vec<StatusEnvelope> = (0..120).map(|_| reply("Queued")).collect();
    let run = await_completion(&replies);
    assert_eq!(run.requests, 120);
    assert_eq!(run.sleeps, 119);
    match run.outcome {
        PollOutcome::Failure { error: ClientError::PollTimeout { attempts } } => {
            assert_eq!(attempts, 120)
        },
        _ => panic!("expected a timeout"),
    }
}

#[test]
fn replies_beyond_the_budget_are_never_requested() {
    let replies: Vec<StatusEnvelope> =
        (0..125).map(|i| if i < 124 { reply("Queued") } else { completed_reply("/x", None) })
            .collect();
    let run = await_completion(&replies);
    assert_eq!(run.requests, 120);
    assert_eq!(run.sleeps, 119);
    match run.outcome {
        PollOutcome::Failure { error: ClientError::PollTimeout { attempts } } => {
            assert_eq!(attempts, 120)
        },
        _ => panic!("expected a timeout"),
    }
}

#[test]
fn a_short_run_of_non_terminal_replies_is_still_pending() {
    let run = await_completion(&vec![reply("Queued"), reply("Processing"), reply("Archived")]);
    assert_eq!(run.requests, 3);
    assert_eq!(run.sleeps, 3);
    match run.outcome {
        PollOutcome::Pending => {},
        _ => panic!("expected the run to still be pending"),
    }
}
