//! The poll-loop state machine: what one status reply decides, and how a
//! whole run of replies plays out.
//!
//! The unverified front end issues one status request per attempt, hands
//! each decoded envelope to `poll_step`, performs the returned action
//! (print a progress note and sleep, finish, or abort), and gives up after
//! `MAX_POLL_ATTEMPTS` attempts.  `await_completion` replays the same
//! decisions over a pre-collected sequence of replies, so the whole run —
//! including how many requests and sleeps it takes — is verified.

use vstd::prelude::*;

use crate::envelope::{spec_status_error_text, StatusEnvelope};
use crate::errors::ClientError;
use crate::status::{spec_format_duration, CompilationStatus, StatusData};
use crate::strutil::{spec_dec, u64_to_dec};

verus! {

/// How often the status endpoint is asked, in seconds.
pub const POLL_INTERVAL_SECS: u64 = 5;

/// How many times the status endpoint is asked before giving up.
pub const MAX_POLL_ATTEMPTS: u32 = 120;

/// What one status reply tells the poll loop to do next.
pub enum PollStep {
    /// Keep polling; `note` is the progress line to show.
    Continue { note: String },
    /// The job finished: fetch `url`; `note` is the closing progress line.
    Done { url: String, note: String },
    /// Stop at once with this error.
    Fail { error: ClientError },
}

/// The queue-position part of a queued progress note; a missing or
/// non-positive position shows nothing.
pub open spec fn spec_queue_info(qp: Option<u32>) -> Seq<char> {
    match qp {
        Some(p) => if p > 0 {
            " (position: "@ + spec_dec(p as nat) + ")"@
        } else {
            Seq::<char>::empty()
        },
        None => Seq::<char>::empty(),
    }
}

/// The progress line shown for a queued job.
pub open spec fn spec_queued_note(d: StatusData) -> Seq<char> {
    "Status: Queued"@ + spec_queue_info(d.queue_position) + " | Time in queue: "@
        + spec_format_duration(d.duration)
}

/// The progress line shown for a running job.
pub open spec fn spec_processing_note(d: StatusData) -> Seq<char> {
    "Status: Processing... | Time: "@ + spec_format_duration(d.duration)
}

/// The progress line shown for an unrecognized status string.
pub open spec fn spec_unknown_note(d: StatusData) -> Seq<char> {
    "Status: "@ + d.status@ + " (unknown)"@
}

/// The closing progress line shown when the job completed.
pub open spec fn spec_completed_note(d: StatusData) -> Seq<char> {
    "Status: Completed! | Compilation time: "@ + spec_format_duration(d.duration)
}

/// The error text reported for a failed job: the service's message, or a
/// generic fallback when it sent none.
pub open spec fn spec_failed_message(d: StatusData) -> Seq<char> {
    match d.error_message {
        Some(m) => m@,
        None => "Unknown error"@,
    }
}

/// What `poll_step` decides for envelope `e`: exactly one case applies.
pub open spec fn spec_poll_decision(e: StatusEnvelope, r: PollStep) -> bool {
    if !e.success {
        &&& r matches PollStep::Fail { error }
        &&& error matches ClientError::ProtocolError { message }
        &&& message@ == spec_status_error_text(e)
    } else {
        match e.data {
            None => {
                &&& r matches PollStep::Fail { error }
                &&& error matches ClientError::ProtocolError { message }
                &&& message@ == "No status data in response"@
            },
            Some(d) => {
                if d.status@ == "Completed"@ {
                    match d.download_url {
                        Some(u) => {
                            &&& r matches PollStep::Done { url, note }
                            &&& url@ == u@
                            &&& note@ == spec_completed_note(d)
                        },
                        None => {
                            &&& r matches PollStep::Fail { error }
                            &&& error matches ClientError::ProtocolError { message }
                            &&& message@ == "No download URL in completed status"@
                        },
                    }
                } else if d.status@ == "Failed"@ {
                    &&& r matches PollStep::Fail { error }
                    &&& error matches ClientError::CompilationFailed { message, duration }
                    &&& message@ == spec_failed_message(d)
                    &&& duration@ == spec_format_duration(d.duration)
                } else if d.status@ == "Queued"@ {
                    r matches PollStep::Continue { note } && note@ == spec_queued_note(d)
                } else if d.status@ == "Processing"@ {
                    r matches PollStep::Continue { note } && note@ == spec_processing_note(d)
                } else {
                    r matches PollStep::Continue { note } && note@ == spec_unknown_note(d)
                }
            },
        }
    }
}

/// Decides what one status reply means for the poll loop.
pub fn poll_step(e: &StatusEnvelope) -> (r: PollStep)
    ensures
        spec_poll_decision(*e, r),
{
    if !e.success {
        let message = match &e.error {
            Some(t) => t.clone(),
            None => "Unknown error".to_owned(),
        };
        return PollStep::Fail { error: ClientError::ProtocolError { message } };
    }
    let d = match &e.data {
        Some(d) => d,
        None => {
            return PollStep::Fail {
                error: ClientError::ProtocolError {
                    message: "No status data in response".to_owned(),
                },
            };
        },
    };
    proof {
        crate::status::lemma_known_status_strings_distinct();
    }
    match d.compilation_status() {
        CompilationStatus::Queued => {
            let mut note = "Status: Queued".to_owned();
            if let Some(p) = d.queue_position {
                if p > 0 {
                    note.append(" (position: ");
                    let ps = u64_to_dec(p as u64);
                    note.append(ps.as_str());
                    note.append(")");
                }
            }
            note.append(" | Time in queue: ");
            let dur = d.format_duration();
            note.append(dur.as_str());
            proof {
                assert(note@ =~= spec_queued_note(*d));
            }
            PollStep::Continue { note }
        },
        CompilationStatus::Processing => {
            let mut note = "Status: Processing... | Time: ".to_owned();
            let dur = d.format_duration();
            note.append(dur.as_str());
            proof {
                assert(note@ =~= spec_processing_note(*d));
            }
            PollStep::Continue { note }
        },
        CompilationStatus::Completed => {
            let mut note = "Status: Completed! | Compilation time: ".to_owned();
            let dur = d.format_duration();
            note.append(dur.as_str());
            proof {
                assert(note@ =~= spec_completed_note(*d));
            }
            match &d.download_url {
                Some(u) => {
                    return PollStep::Done { url: u.clone(), note };
                },
                None => {
                    return PollStep::Fail {
                        error: ClientError::ProtocolError {
                            message: "No download URL in completed status".to_owned(),
                        },
                    };
                },
            }
        },
        CompilationStatus::Failed => {
            let message = match &d.error_message {
                Some(m) => m.clone(),
                None => "Unknown error".to_owned(),
            };
            let duration = d.format_duration();
            return PollStep::Fail {
                error: ClientError::CompilationFailed { message, duration },
            };
        },
        CompilationStatus::Unknown(raw) => {
            let mut note = "Status: ".to_owned();
            note.append(raw.as_str());
            note.append(" (unknown)");
            proof {
                assert(note@ =~= spec_unknown_note(*d));
            }
            PollStep::Continue { note }
        },
    }
}

/// A reply on which the poll loop stops: a failed or payload-less
/// envelope, or a terminal job state.
pub open spec fn spec_terminal(e: StatusEnvelope) -> bool {
    ||| !e.success
    ||| match e.data {
        None => true,
        Some(d) => d.status@ == "Completed"@ || d.status@ == "Failed"@,
    }
}

/// The outcome a run ends with on terminal reply `e`.
pub open spec fn spec_terminal_outcome(e: StatusEnvelope, o: PollOutcome) -> bool {
    if !e.success {
        &&& o matches PollOutcome::Failure { error }
        &&& error matches ClientError::ProtocolError { message }
        &&& message@ == spec_status_error_text(e)
    } else {
        match e.data {
            None => {
                &&& o matches PollOutcome::Failure { error }
                &&& error matches ClientError::ProtocolError { message }
                &&& message@ == "No status data in response"@
            },
            Some(d) => {
                if d.status@ == "Completed"@ {
                    match d.download_url {
                        Some(u) => o matches PollOutcome::Success { url } && url@ == u@,
                        None => {
                            &&& o matches PollOutcome::Failure { error }
                            &&& error matches ClientError::ProtocolError { message }
                            &&& message@ == "No download URL in completed status"@
                        },
                    }
                } else {
                    &&& o matches PollOutcome::Failure { error }
                    &&& error matches ClientError::CompilationFailed { message, duration }
                    &&& message@ == spec_failed_message(d)
                    &&& duration@ == spec_format_duration(d.duration)
                }
            },
        }
    }
}

/// How a whole run of poll replies ends.
pub enum PollOutcome {
    /// A completed job: the download reference to fetch.
    Success { url: String },
    /// The run aborted with this error (including the timeout).
    Failure { error: ClientError },
    /// Every reply seen so far was non-terminal and the attempt budget is
    /// not yet spent: the loop would still be polling.
    Pending,
}

/// One finished (or still pending) run: its outcome, how many status
/// requests it issued, and how many times it slept between them.
pub struct PollRun {
    pub outcome: PollOutcome,
    pub requests: usize,
    pub sleeps: usize,
}

/// The index of the first terminal reply in `s` at or after `i`, looking
/// no further than `n`; `n` when there is none.
pub open spec fn spec_first_terminal(s: Seq<StatusEnvelope>, i: int, n: int) -> int
    decreases n - i,
{
    if i < 0 || i >= n {
        n
    } else if spec_terminal(s[i]) {
        i
    } else {
        spec_first_terminal(s, i + 1, n)
    }
}

proof fn lemma_first_terminal_prefix(s: Seq<StatusEnvelope>, j: int, a: int, n: int)
    requires
        0 <= j <= a <= n,
        forall|k: int| j <= k < a ==> !spec_terminal(s[k]),
    ensures
        spec_first_terminal(s, j, n) == spec_first_terminal(s, a, n),
    decreases a - j,
{
    if j < a {
        lemma_first_terminal_prefix(s, j + 1, a, n);
    }
}

/// A step is `Continue` exactly on the non-terminal replies, and a
/// terminal step carries the run outcome the reply dictates.
pub proof fn lemma_decision_terminal(e: StatusEnvelope, r: PollStep)
    requires
        spec_poll_decision(e, r),
    ensures
        r is Continue <==> !spec_terminal(e),
        r matches PollStep::Done { url, note } ==> spec_terminal_outcome(
            e,
            PollOutcome::Success { url },
        ),
        r matches PollStep::Fail { error } ==> spec_terminal_outcome(
            e,
            PollOutcome::Failure { error },
        ),
{
}

/// What `await_completion` returns for the reply sequence `s`: with the
/// first terminal reply at index `k` (within the attempt budget), the run
/// issues `k + 1` requests, sleeps `k` times — never after the last
/// attempt — and ends with that reply's outcome; with no terminal reply
/// in the first `MAX_POLL_ATTEMPTS`, it issues all `MAX_POLL_ATTEMPTS`
/// requests, sleeps one time fewer, and times out.
pub open spec fn spec_await_outcome(s: Seq<StatusEnvelope>, r: PollRun) -> bool {
    let n = if s.len() < MAX_POLL_ATTEMPTS { s.len() as int } else { MAX_POLL_ATTEMPTS as int };
    let k = spec_first_terminal(s, 0, n);
    if k < n {
        &&& r.requests == k + 1
        &&& r.sleeps == k
        &&& spec_terminal_outcome(s[k], r.outcome)
    } else if s.len() >= MAX_POLL_ATTEMPTS {
        &&& r.requests == MAX_POLL_ATTEMPTS
        &&& r.sleeps == MAX_POLL_ATTEMPTS - 1
        &&& r.outcome matches PollOutcome::Failure { error }
        &&& error matches ClientError::PollTimeout { attempts }
        &&& attempts == MAX_POLL_ATTEMPTS
    } else {
        &&& r.outcome is Pending
        &&& r.requests == s.len()
        &&& r.sleeps == s.len()
    }
}

/// Replays the poll loop's decisions over a sequence of status replies,
/// counting the requests issued and the sleeps between them.
pub fn await_completion(events: &Vec<StatusEnvelope>) -> (r: PollRun)
    ensures
        spec_await_outcome(events@, r),
{
    let ghost n: int = if events@.len() < MAX_POLL_ATTEMPTS {
        events@.len() as int
    } else {
        MAX_POLL_ATTEMPTS as int
    };
    let n_events = events.len();
    let max: usize = MAX_POLL_ATTEMPTS as usize;
    let mut i: usize = 0;
    while i < n_events && i < max
        invariant
            0 <= i <= n_events,
            i <= max,
            n_events == events@.len(),
            max == MAX_POLL_ATTEMPTS,
            n == if events@.len() < MAX_POLL_ATTEMPTS {
                events@.len() as int
            } else {
                MAX_POLL_ATTEMPTS as int
            },
            forall|j: int| 0 <= j < i ==> !spec_terminal(events@[j]),
        decreases max - i,
    {
        let step = poll_step(&events[i]);
        let ghost gstep = step;
        proof {
            lemma_decision_terminal(events@[i as int], gstep);
            lemma_first_terminal_prefix(events@, 0, i as int, n);
        }
        match step {
            PollStep::Continue { note: _ } => {
                i += 1;
            },
            PollStep::Done { url, note: _ } => {
                return PollRun {
                    outcome: PollOutcome::Success { url },
                    requests: i + 1,
                    sleeps: i,
                };
            },
            PollStep::Fail { error } => {
                return PollRun {
                    outcome: PollOutcome::Failure { error },
                    requests: i + 1,
                    sleeps: i,
                };
            },
        }
    }
    proof {
        lemma_first_terminal_prefix(events@, 0, i as int, n);
    }
    if i == max {
        PollRun {
            outcome: PollOutcome::Failure {
                error: ClientError::PollTimeout { attempts: MAX_POLL_ATTEMPTS },
            },
            requests: max,
            sleeps: max - 1,
        }
    } else {
        PollRun { outcome: PollOutcome::Pending, requests: i, sleeps: i }
    }
}

} // verus!
