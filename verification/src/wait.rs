//! Bounded waits on radio operations, and the report line of a wait whose
//! deadline elapsed.
use vstd::prelude::*;
use vstd::string::StringSliceAdditionalSpecFns;
use crate::bytes::append_bytes;
use crate::clock::{ApplicationWaitDeadline, deadline_elapsed, deadline_reached};

verus! {

/// What the waiting task does after one poll of the radio operation.
#[derive(Clone, Copy, Debug, PartialEq, Eq, Structural)]
pub enum PollDecision {
    /// The operation finished: hand its output back.
    Ready,
    /// The operation is still pending and its deadline elapsed: give up.
    DeadlineElapsed,
    /// The operation is still pending: yield to the radio tasks and poll again.
    Reschedule,
}

/// The decision after a poll: a finished operation always wins; a pending one
/// is abandoned once the wait's deadline is reached.
pub open spec fn poll_decision(ready: bool, started_ms: u64, now_ms: u64, deadline_ms: nat) -> PollDecision {
    if ready {
        PollDecision::Ready
    } else if deadline_reached(started_ms, now_ms, deadline_ms) {
        PollDecision::DeadlineElapsed
    } else {
        PollDecision::Reschedule
    }
}

/// One bounded wait on a radio operation.
pub struct RadioWait {
    started_ms: u64,
    deadline: ApplicationWaitDeadline,
}

impl RadioWait {
    /// Clock reading at which the wait started.
    pub closed spec fn started(&self) -> u64 {
        self.started_ms
    }

    /// The wait's deadline, in milliseconds.
    pub closed spec fn deadline(&self) -> nat {
        self.deadline@
    }

    /// Starts a wait at clock reading `started_ms` with the given deadline.
    pub fn start(started_ms: u64, deadline: ApplicationWaitDeadline) -> (r: Self)
        ensures
            r.started() == started_ms,
            r.deadline() == deadline@,
    {
        RadioWait { started_ms, deadline }
    }

    /// Decides what to do after a poll that found the operation `ready` or
    /// pending, at clock reading `now_ms`.
    pub fn after_poll(&self, ready: bool, now_ms: u64) -> (r: PollDecision)
        ensures
            r == poll_decision(ready, self.started(), now_ms, self.deadline()),
    {
        if ready {
            PollDecision::Ready
        } else if deadline_elapsed(self.started_ms, now_ms, self.deadline) {
            PollDecision::DeadlineElapsed
        } else {
            PollDecision::Reschedule
        }
    }
}

/// Text before the stage name in the report of an elapsed wait.
pub open spec fn deadline_line_head() -> Seq<u8> {
    "WIFI_ERROR {\"schema\":\"hisi-rf-application-wait/v1\",\"code\":\"application.deadline\",\"stage\":\"".spec_bytes()
}

/// Text after the stage name in the report of an elapsed wait.
pub open spec fn deadline_line_tail() -> Seq<u8> {
    "\"}\r\n".spec_bytes()
}

/// The report line for a wait whose deadline elapsed during `stage`: a JSON
/// object with the wait schema, the deadline code and the stage name.
pub fn application_deadline_line(stage: &[u8]) -> (line: Vec<u8>)
    ensures
        line@ == deadline_line_head() + stage@ + deadline_line_tail(),
{
    let mut line: Vec<u8> = Vec::new();
    append_bytes(
        &mut line,
        "WIFI_ERROR {\"schema\":\"hisi-rf-application-wait/v1\",\"code\":\"application.deadline\",\"stage\":\"".as_bytes(),
    );
    append_bytes(&mut line, stage);
    append_bytes(&mut line, "\"}\r\n".as_bytes());
    line
}

/// Text before the radio's JSON diagnostic in a failure report.
pub open spec fn radio_error_head() -> Seq<u8> {
    "WIFI_ERROR ".spec_bytes()
}

/// Line terminator of every report line.
pub open spec fn line_end() -> Seq<u8> {
    "\r\n".spec_bytes()
}

/// The report line for a radio failure: the marker, the radio's JSON
/// diagnostic, and the line terminator.
pub fn radio_error_line(diagnostic_json: &[u8]) -> (line: Vec<u8>)
    ensures
        line@ == radio_error_head() + diagnostic_json@ + line_end(),
{
    let mut line: Vec<u8> = Vec::new();
    append_bytes(&mut line, "WIFI_ERROR ".as_bytes());
    append_bytes(&mut line, diagnostic_json);
    append_bytes(&mut line, "\r\n".as_bytes());
    line
}


/// Law: a wait gives up exactly when its true elapsed time reaches the
/// deadline. For any start, any true elapsed time below 2^64 (the clock
/// reading then being the start plus that time, modulo 2^64) and any
/// deadline: a finished poll is always `Ready`; a pending poll is
/// `DeadlineElapsed` exactly when the elapsed time is at least the deadline,
/// and `Reschedule` otherwise.
pub proof fn lemma_wait_gives_up_at_deadline(started_ms: u64, elapsed: nat, deadline_ms: nat)
    requires
        elapsed < crate::clock::u64_modulus(),
    ensures
        ({
            let now_ms = ((started_ms + elapsed) % crate::clock::u64_modulus()) as u64;
            &&& poll_decision(true, started_ms, now_ms, deadline_ms) == PollDecision::Ready
            &&& (poll_decision(false, started_ms, now_ms, deadline_ms) == PollDecision::DeadlineElapsed
                <==> elapsed >= deadline_ms)
            &&& (poll_decision(false, started_ms, now_ms, deadline_ms) == PollDecision::Reschedule
                <==> elapsed < deadline_ms)
        }),
{
    crate::clock::lemma_deadline_survives_counter_wrap(started_ms, elapsed, deadline_ms);
}

/// Law: once a pending wait has given up, it stays given up: if a poll after
/// a true elapsed time `earlier` reports `DeadlineElapsed`, so does a poll
/// after any longer elapsed time `later` below 2^64.
pub proof fn lemma_gave_up_stays_given_up(started_ms: u64, earlier: nat, later: nat, deadline_ms: nat)
    requires
        earlier <= later < crate::clock::u64_modulus(),
        poll_decision(
            false,
            started_ms,
            ((started_ms + earlier) % crate::clock::u64_modulus()) as u64,
            deadline_ms,
        ) == PollDecision::DeadlineElapsed,
    ensures
        poll_decision(
            false,
            started_ms,
            ((started_ms + later) % crate::clock::u64_modulus()) as u64,
            deadline_ms,
        ) == PollDecision::DeadlineElapsed,
{
    lemma_wait_gives_up_at_deadline(started_ms, earlier, deadline_ms);
    lemma_wait_gives_up_at_deadline(started_ms, later, deadline_ms);
}

} // verus!
