//! The BLE/SLE starter's supervision: the setup steps, each of which stops the
//! firmware with its own marker when it fails, and the runner loop that
//! watches the starter operation's completion and the event queue.
use vstd::prelude::*;
use vstd::string::StringSliceAdditionalSpecFns;
use crate::bytes::append_bytes;
use crate::radio_profile::{RadioProfile, profile_name};

verus! {

/// The setup steps, in the order the firmware performs them.
#[derive(Clone, Copy, Debug, PartialEq, Eq, Structural)]
pub enum SetupStep {
    /// Install the caller-owned radio storage.
    InstallStorage,
    /// Start the RTOS port.
    StartRtos,
    /// Adopt the main thread as an RTOS task.
    AdoptMainTask,
    /// Make the main task preemptive.
    SetMainTaskPolicy,
    /// Initialize the shared radio controller.
    InitController,
    /// Start the profile's first typed operation.
    StartCommand,
}

/// Where the starter stands.
#[derive(Clone, Copy, Debug, PartialEq, Eq, Structural)]
pub enum StarterPhase {
    Setup(SetupStep),
    Running,
    Halted,
}

/// What taking the starter operation's completion yielded.
#[derive(Clone, Copy, Debug, PartialEq, Eq, Structural)]
pub enum CompletionPoll {
    /// No completion yet.
    Pending,
    /// Taking the completion failed.
    TakeFailed,
    /// A completion arrived: whether it belongs to the started command, and
    /// whether the command succeeded.
    Finished { matches_command: bool, succeeded: bool },
}

/// What the firmware observed.
#[derive(Clone, Copy, Debug, PartialEq, Eq, Structural)]
pub enum StarterEvent {
    /// The pending setup step succeeded or failed.
    SetupDone(bool),
    /// One runner pass succeeded or failed.
    RunnerPassed(bool),
    /// The completion was polled.
    CompletionPolled(CompletionPoll),
    /// The runner's count of dropped events.
    DroppedEvents(u64),
}

/// Success markers.
#[derive(Clone, Copy, Debug, PartialEq, Eq, Structural)]
pub enum RadioMarker {
    InitOk,
    CommandOk,
}

/// Failure markers; each stops the firmware.
#[derive(Clone, Copy, Debug, PartialEq, Eq, Structural)]
pub enum RadioFailure {
    Storage,
    Rtos,
    MainTask,
    Policy,
    Init,
    CommandBusy,
    Runner,
    Completion,
    Command,
    EventDrop,
}

/// What the firmware does after an event.
#[derive(Clone, Copy, Debug, PartialEq, Eq, Structural)]
pub enum StarterAction {
    /// Nothing to report; go on.
    Continue,
    /// Print a success marker and go on.
    Report(RadioMarker),
    /// Print a failure marker and stop.
    Fail(RadioFailure),
}

/// The step after a setup step succeeds.
pub open spec fn phase_after_setup(step: SetupStep) -> StarterPhase {
    match step {
        SetupStep::InstallStorage => StarterPhase::Setup(SetupStep::StartRtos),
        SetupStep::StartRtos => StarterPhase::Setup(SetupStep::AdoptMainTask),
        SetupStep::AdoptMainTask => StarterPhase::Setup(SetupStep::SetMainTaskPolicy),
        SetupStep::SetMainTaskPolicy => StarterPhase::Setup(SetupStep::InitController),
        SetupStep::InitController => StarterPhase::Setup(SetupStep::StartCommand),
        SetupStep::StartCommand => StarterPhase::Running,
    }
}

/// The failure marker of a setup step.
pub open spec fn setup_failure(step: SetupStep) -> RadioFailure {
    match step {
        SetupStep::InstallStorage => RadioFailure::Storage,
        SetupStep::StartRtos => RadioFailure::Rtos,
        SetupStep::AdoptMainTask => RadioFailure::MainTask,
        SetupStep::SetMainTaskPolicy => RadioFailure::Policy,
        SetupStep::InitController => RadioFailure::Init,
        SetupStep::StartCommand => RadioFailure::CommandBusy,
    }
}

/// One transition of the starter. Events that do not belong to the current
/// phase change nothing.
pub open spec fn starter_step(phase: StarterPhase, event: StarterEvent) -> (StarterPhase, StarterAction) {
    match (phase, event) {
        (StarterPhase::Setup(step), StarterEvent::SetupDone(ok)) => if ok {
            (
                phase_after_setup(step),
                if step == SetupStep::InitController {
                    StarterAction::Report(RadioMarker::InitOk)
                } else {
                    StarterAction::Continue
                },
            )
        } else {
            (StarterPhase::Halted, StarterAction::Fail(setup_failure(step)))
        },
        (StarterPhase::Running, StarterEvent::RunnerPassed(ok)) => if ok {
            (StarterPhase::Running, StarterAction::Continue)
        } else {
            (StarterPhase::Halted, StarterAction::Fail(RadioFailure::Runner))
        },
        (StarterPhase::Running, StarterEvent::CompletionPolled(poll)) => match poll {
            CompletionPoll::Pending => (StarterPhase::Running, StarterAction::Continue),
            CompletionPoll::TakeFailed => (StarterPhase::Halted, StarterAction::Fail(RadioFailure::Completion)),
            CompletionPoll::Finished { matches_command, succeeded } => if matches_command && succeeded {
                (StarterPhase::Running, StarterAction::Report(RadioMarker::CommandOk))
            } else {
                (StarterPhase::Halted, StarterAction::Fail(RadioFailure::Command))
            },
        },
        (StarterPhase::Running, StarterEvent::DroppedEvents(n)) => if n == 0 {
            (StarterPhase::Running, StarterAction::Continue)
        } else {
            (StarterPhase::Halted, StarterAction::Fail(RadioFailure::EventDrop))
        },
        _ => (phase, StarterAction::Continue),
    }
}

/// The starter's supervisor for one profile.
pub struct RadioStarter {
    profile: RadioProfile,
    phase: StarterPhase,
}

impl RadioStarter {
    /// The profile the starter runs.
    pub closed spec fn profile(&self) -> RadioProfile {
        self.profile
    }

    /// The starter's phase.
    pub closed spec fn phase_view(&self) -> StarterPhase {
        self.phase
    }

    /// A starter for `profile`, about to install the radio storage.
    pub fn new(profile: RadioProfile) -> (r: Self)
        ensures
            r.profile() == profile,
            r.phase_view() == StarterPhase::Setup(SetupStep::InstallStorage),
    {
        RadioStarter { profile, phase: StarterPhase::Setup(SetupStep::InstallStorage) }
    }

    /// The starter's phase.
    pub fn phase(&self) -> (p: StarterPhase)
        ensures
            p == self.phase_view(),
    {
        self.phase
    }

    /// Records an event and returns what to do.
    pub fn on_event(&mut self, event: StarterEvent) -> (action: StarterAction)
        ensures
            final(self).profile() == old(self).profile(),
            (final(self).phase_view(), action) == starter_step(old(self).phase_view(), event),
    {
        match (self.phase, event) {
            (StarterPhase::Setup(step), StarterEvent::SetupDone(ok)) => {
                if ok {
                    let next = match step {
                        SetupStep::InstallStorage => StarterPhase::Setup(SetupStep::StartRtos),
                        SetupStep::StartRtos => StarterPhase::Setup(SetupStep::AdoptMainTask),
                        SetupStep::AdoptMainTask => StarterPhase::Setup(SetupStep::SetMainTaskPolicy),
                        SetupStep::SetMainTaskPolicy => StarterPhase::Setup(SetupStep::InitController),
                        SetupStep::InitController => StarterPhase::Setup(SetupStep::StartCommand),
                        SetupStep::StartCommand => StarterPhase::Running,
                    };
                    self.phase = next;
                    match step {
                        SetupStep::InitController => StarterAction::Report(RadioMarker::InitOk),
                        _ => StarterAction::Continue,
                    }
                } else {
                    let failure = match step {
                        SetupStep::InstallStorage => RadioFailure::Storage,
                        SetupStep::StartRtos => RadioFailure::Rtos,
                        SetupStep::AdoptMainTask => RadioFailure::MainTask,
                        SetupStep::SetMainTaskPolicy => RadioFailure::Policy,
                        SetupStep::InitController => RadioFailure::Init,
                        SetupStep::StartCommand => RadioFailure::CommandBusy,
                    };
                    self.phase = StarterPhase::Halted;
                    StarterAction::Fail(failure)
                }
            },
            (StarterPhase::Running, StarterEvent::RunnerPassed(ok)) => {
                if ok {
                    StarterAction::Continue
                } else {
                    self.phase = StarterPhase::Halted;
                    StarterAction::Fail(RadioFailure::Runner)
                }
            },
            (StarterPhase::Running, StarterEvent::CompletionPolled(poll)) => match poll {
                CompletionPoll::Pending => StarterAction::Continue,
                CompletionPoll::TakeFailed => {
                    self.phase = StarterPhase::Halted;
                    StarterAction::Fail(RadioFailure::Completion)
                },
                CompletionPoll::Finished { matches_command, succeeded } => {
                    if matches_command && succeeded {
                        StarterAction::Report(RadioMarker::CommandOk)
                    } else {
                        self.phase = StarterPhase::Halted;
                        StarterAction::Fail(RadioFailure::Command)
                    }
                },
            },
            (StarterPhase::Running, StarterEvent::DroppedEvents(n)) => {
                if n == 0 {
                    StarterAction::Continue
                } else {
                    self.phase = StarterPhase::Halted;
                    StarterAction::Fail(RadioFailure::EventDrop)
                }
            },
            _ => StarterAction::Continue,
        }
    }

    /// The UART line for an action: the success markers name the profile,
    /// failures print their marker, and `Continue` prints nothing.
    pub fn action_line(&self, action: StarterAction) -> (line: Vec<u8>)
        ensures
            line@ == action_text(self.profile(), action),
    {
        let mut line: Vec<u8> = Vec::new();
        match action {
            StarterAction::Continue => {},
            StarterAction::Report(marker) => {
                let head = match marker {
                    RadioMarker::InitOk => "RADIO_INIT_OK profile=",
                    RadioMarker::CommandOk => "RADIO_COMMAND_OK profile=",
                };
                append_bytes(&mut line, head.as_bytes());
                append_bytes(&mut line, self.profile.name().as_bytes());
                append_bytes(&mut line, "\r\n".as_bytes());
            },
            StarterAction::Fail(failure) => {
                append_bytes(&mut line, failure.text().as_bytes());
            },
        }
        line
    }
}

/// The failure marker line of each failure.
pub open spec fn failure_text(failure: RadioFailure) -> &'static str {
    match failure {
        RadioFailure::Storage => "RADIO_STORAGE_ERR\r\n",
        RadioFailure::Rtos => "RADIO_RTOS_ERR\r\n",
        RadioFailure::MainTask => "RADIO_MAIN_TASK_ERR\r\n",
        RadioFailure::Policy => "RADIO_POLICY_ERR\r\n",
        RadioFailure::Init => "RADIO_INIT_ERR\r\n",
        RadioFailure::CommandBusy => "RADIO_COMMAND_BUSY\r\n",
        RadioFailure::Runner => "RADIO_RUNNER_ERR\r\n",
        RadioFailure::Completion => "RADIO_COMPLETION_ERR\r\n",
        RadioFailure::Command => "RADIO_COMMAND_ERR\r\n",
        RadioFailure::EventDrop => "RADIO_EVENT_DROP\r\n",
    }
}

impl RadioFailure {
    /// The failure's marker line.
    pub fn text(&self) -> (s: &'static str)
        ensures
            s@ == failure_text(*self)@,
    {
        match self {
            RadioFailure::Storage => "RADIO_STORAGE_ERR\r\n",
            RadioFailure::Rtos => "RADIO_RTOS_ERR\r\n",
            RadioFailure::MainTask => "RADIO_MAIN_TASK_ERR\r\n",
            RadioFailure::Policy => "RADIO_POLICY_ERR\r\n",
            RadioFailure::Init => "RADIO_INIT_ERR\r\n",
            RadioFailure::CommandBusy => "RADIO_COMMAND_BUSY\r\n",
            RadioFailure::Runner => "RADIO_RUNNER_ERR\r\n",
            RadioFailure::Completion => "RADIO_COMPLETION_ERR\r\n",
            RadioFailure::Command => "RADIO_COMMAND_ERR\r\n",
            RadioFailure::EventDrop => "RADIO_EVENT_DROP\r\n",
        }
    }
}

/// The bytes printed for an action of a starter running `profile`.
pub open spec fn action_text(profile: RadioProfile, action: StarterAction) -> Seq<u8> {
    match action {
        StarterAction::Continue => Seq::empty(),
        StarterAction::Report(RadioMarker::InitOk) => "RADIO_INIT_OK profile=".spec_bytes()
            + profile_name(profile).spec_bytes() + "\r\n".spec_bytes(),
        StarterAction::Report(RadioMarker::CommandOk) => "RADIO_COMMAND_OK profile=".spec_bytes()
            + profile_name(profile).spec_bytes() + "\r\n".spec_bytes(),
        StarterAction::Fail(failure) => failure_text(failure).spec_bytes(),
    }
}


/// The actions of a starter that starts in `phase` and observes `events`, one
/// action per event, and the phase it ends in.
pub open spec fn starter_run(phase: StarterPhase, events: Seq<StarterEvent>) -> (StarterPhase, Seq<StarterAction>)
    decreases events.len(),
{
    if events.len() == 0 {
        (phase, Seq::empty())
    } else {
        let (next, action) = starter_step(phase, events[0]);
        let (last, rest) = starter_run(next, events.drop_first());
        (last, seq![action] + rest)
    }
}

/// The initialization marker has already been printed in this phase.
pub open spec fn init_reported(phase: StarterPhase) -> bool {
    phase == StarterPhase::Setup(SetupStep::StartCommand) || phase == StarterPhase::Running
}

/// A completion of the started command that succeeded.
pub open spec fn accepted_completion() -> StarterEvent {
    StarterEvent::CompletionPolled(CompletionPoll::Finished { matches_command: true, succeeded: true })
}

/// Nothing but `Continue` follows a failure.
#[verifier::opaque]
pub open spec fn silent_after_failure(actions: Seq<StarterAction>) -> bool {
    forall|i: int, j: int|
        0 <= i < j < actions.len() && (#[trigger] actions[i] is Fail) ==> #[trigger] actions[j]
            == StarterAction::Continue
}

/// Every action is `Continue`.
#[verifier::opaque]
pub open spec fn all_continue(actions: Seq<StarterAction>) -> bool {
    forall|i: int| 0 <= i < actions.len() ==> #[trigger] actions[i] == StarterAction::Continue
}

/// The initialization marker is printed at most once.
#[verifier::opaque]
pub open spec fn init_at_most_once(actions: Seq<StarterAction>) -> bool {
    forall|i: int, j: int|
        0 <= i < actions.len() && 0 <= j < actions.len() && #[trigger] actions[i]
            == StarterAction::Report(RadioMarker::InitOk) && #[trigger] actions[j]
            == StarterAction::Report(RadioMarker::InitOk) ==> i == j
}

/// The initialization marker is not printed.
#[verifier::opaque]
pub open spec fn no_init(actions: Seq<StarterAction>) -> bool {
    forall|i: int| 0 <= i < actions.len() ==> #[trigger] actions[i] != StarterAction::Report(RadioMarker::InitOk)
}

/// Every command marker comes after an initialization marker.
#[verifier::opaque]
pub open spec fn commands_after_init(actions: Seq<StarterAction>) -> bool {
    forall|j: int|
        0 <= j < actions.len() && #[trigger] actions[j] == StarterAction::Report(RadioMarker::CommandOk)
            ==> exists|i: int| 0 <= i < j && #[trigger] actions[i] == StarterAction::Report(RadioMarker::InitOk)
}

/// Every command marker answers an accepted completion of the started
/// command.
#[verifier::opaque]
pub open spec fn commands_answer_completions(actions: Seq<StarterAction>, events: Seq<StarterEvent>) -> bool {
    forall|j: int|
        0 <= j < actions.len() && #[trigger] actions[j] == StarterAction::Report(RadioMarker::CommandOk)
            ==> events[j] == accepted_completion()
}

proof fn lemma_run_unfold(phase: StarterPhase, events: Seq<StarterEvent>)
    requires
        events.len() > 0,
    ensures
        starter_run(phase, events).1 == seq![starter_step(phase, events[0]).1] + starter_run(
            starter_step(phase, events[0]).0,
            events.drop_first(),
        ).1,
{
}

proof fn lemma_run_length(phase: StarterPhase, events: Seq<StarterEvent>)
    ensures
        starter_run(phase, events).1.len() == events.len(),
    decreases events.len(),
{
    if events.len() > 0 {
        lemma_run_length(starter_step(phase, events[0]).0, events.drop_first());
    }
}

proof fn lemma_halted_silent(events: Seq<StarterEvent>)
    ensures
        all_continue(starter_run(StarterPhase::Halted, events).1),
    decreases events.len(),
{
    reveal(all_continue);
    if events.len() > 0 {
        lemma_run_unfold(StarterPhase::Halted, events);
        lemma_halted_silent(events.drop_first());
        let rest = starter_run(StarterPhase::Halted, events.drop_first()).1;
        let actions = starter_run(StarterPhase::Halted, events).1;
        assert forall|i: int| 0 <= i < actions.len() implies #[trigger] actions[i] == StarterAction::Continue by {
            if i > 0 {
                assert(actions[i] == rest[i - 1]);
            }
        }
    }
}

proof fn lemma_silent_after_failure(phase: StarterPhase, events: Seq<StarterEvent>)
    ensures
        silent_after_failure(starter_run(phase, events).1),
    decreases events.len(),
{
    reveal(silent_after_failure);
    if events.len() > 0 {
        let (next, a) = starter_step(phase, events[0]);
        lemma_run_unfold(phase, events);
        lemma_silent_after_failure(next, events.drop_first());
        let rest = starter_run(next, events.drop_first()).1;
        let actions = starter_run(phase, events).1;
        if a is Fail {
            lemma_halted_silent(events.drop_first());
            reveal(all_continue);
        }
        assert forall|i: int, j: int|
            0 <= i < j < actions.len() && (#[trigger] actions[i] is Fail) implies #[trigger] actions[j]
            == StarterAction::Continue by {
            assert(actions[j] == rest[j - 1]);
            if i > 0 {
                assert(actions[i] == rest[i - 1]);
            }
        }
    }
}

proof fn lemma_commands_answer_completions(phase: StarterPhase, events: Seq<StarterEvent>)
    ensures
        commands_answer_completions(starter_run(phase, events).1, events),
    decreases events.len(),
{
    reveal(commands_answer_completions);
    if events.len() > 0 {
        let (next, a) = starter_step(phase, events[0]);
        let tail = events.drop_first();
        lemma_run_unfold(phase, events);
        lemma_commands_answer_completions(next, tail);
        lemma_run_length(phase, events);
        let rest = starter_run(next, tail).1;
        let actions = starter_run(phase, events).1;
        assert forall|j: int|
            0 <= j < actions.len() && #[trigger] actions[j] == StarterAction::Report(RadioMarker::CommandOk)
                implies events[j] == accepted_completion() by {
            if j > 0 {
                assert(actions[j] == rest[j - 1]);
                assert(events[j] == tail[j - 1]);
            }
        }
    }
}

proof fn lemma_no_init_once_reported(phase: StarterPhase, events: Seq<StarterEvent>)
    requires
        init_reported(phase) || phase == StarterPhase::Halted,
    ensures
        no_init(starter_run(phase, events).1),
    decreases events.len(),
{
    reveal(no_init);
    if events.len() > 0 {
        let (next, a) = starter_step(phase, events[0]);
        let tail = events.drop_first();
        lemma_run_unfold(phase, events);
        assert(init_reported(next) || next == StarterPhase::Halted);
        lemma_no_init_once_reported(next, tail);
        let rest = starter_run(next, tail).1;
        let actions = starter_run(phase, events).1;
        assert forall|i: int| 0 <= i < actions.len() implies #[trigger] actions[i] != StarterAction::Report(RadioMarker::InitOk) by {
            if i > 0 {
                assert(actions[i] == rest[i - 1]);
            }
        }
    }
}

proof fn lemma_init_at_most_once(phase: StarterPhase, events: Seq<StarterEvent>)
    ensures
        init_at_most_once(starter_run(phase, events).1),
    decreases events.len(),
{
    reveal(init_at_most_once);
    if events.len() > 0 {
        let (next, a) = starter_step(phase, events[0]);
        let tail = events.drop_first();
        lemma_run_unfold(phase, events);
        lemma_init_at_most_once(next, tail);
        let rest = starter_run(next, tail).1;
        let actions = starter_run(phase, events).1;
        if a == StarterAction::Report(RadioMarker::InitOk) {
            assert(next == StarterPhase::Setup(SetupStep::StartCommand));
            lemma_no_init_once_reported(next, tail);
            reveal(no_init);
        }
        assert forall|i: int, j: int|
            0 <= i < actions.len() && 0 <= j < actions.len() && #[trigger] actions[i]
                == StarterAction::Report(RadioMarker::InitOk) && #[trigger] actions[j]
                == StarterAction::Report(RadioMarker::InitOk) implies i == j by {
            if i > 0 {
                assert(actions[i] == rest[i - 1]);
            }
            if j > 0 {
                assert(actions[j] == rest[j - 1]);
            }
        }
    }
}

proof fn lemma_commands_after_init(phase: StarterPhase, events: Seq<StarterEvent>)
    requires
        !init_reported(phase),
    ensures
        commands_after_init(starter_run(phase, events).1),
    decreases events.len(),
{
    reveal(commands_after_init);
    if events.len() > 0 {
        let (next, a) = starter_step(phase, events[0]);
        let tail = events.drop_first();
        lemma_run_unfold(phase, events);
        let rest = starter_run(next, tail).1;
        let actions = starter_run(phase, events).1;
        assert(a != StarterAction::Report(RadioMarker::CommandOk));
        if a == StarterAction::Report(RadioMarker::InitOk) {
            assert forall|j: int|
                0 <= j < actions.len() && #[trigger] actions[j] == StarterAction::Report(RadioMarker::CommandOk)
                    implies exists|i: int| 0 <= i < j && #[trigger] actions[i] == StarterAction::Report(RadioMarker::InitOk) by {
                assert(actions[0] == StarterAction::Report(RadioMarker::InitOk));
            }
        } else if next == StarterPhase::Halted {
            lemma_halted_silent(tail);
            reveal(all_continue);
            assert forall|j: int|
                0 <= j < actions.len() && #[trigger] actions[j] == StarterAction::Report(RadioMarker::CommandOk)
                    implies exists|i: int| 0 <= i < j && #[trigger] actions[i] == StarterAction::Report(RadioMarker::InitOk) by {
                assert(actions[j] == rest[j - 1]);
            }
        } else {
            assert(!init_reported(next));
            lemma_commands_after_init(next, tail);
            assert forall|j: int|
                0 <= j < actions.len() && #[trigger] actions[j] == StarterAction::Report(RadioMarker::CommandOk)
                    implies exists|i: int| 0 <= i < j && #[trigger] actions[i] == StarterAction::Report(RadioMarker::InitOk) by {
                assert(actions[j] == rest[j - 1]);
                let i0 = choose|i: int| 0 <= i < j - 1 && #[trigger] rest[i] == StarterAction::Report(RadioMarker::InitOk);
                assert(actions[i0 + 1] == rest[i0]);
            }
        }
    }
}

/// Law: from power-up, the starter prints its initialization marker at most
/// once; every command marker comes after it and answers a completion that
/// belongs to the started command and succeeded; and after a failure marker
/// nothing more is printed. There is one action per observed event.
pub proof fn lemma_starter_markers(events: Seq<StarterEvent>)
    ensures
        starter_run(StarterPhase::Setup(SetupStep::InstallStorage), events).1.len() == events.len(),
        init_at_most_once(starter_run(StarterPhase::Setup(SetupStep::InstallStorage), events).1),
        commands_after_init(starter_run(StarterPhase::Setup(SetupStep::InstallStorage), events).1),
        commands_answer_completions(starter_run(StarterPhase::Setup(SetupStep::InstallStorage), events).1, events),
        silent_after_failure(starter_run(StarterPhase::Setup(SetupStep::InstallStorage), events).1),
{
    let start = StarterPhase::Setup(SetupStep::InstallStorage);
    lemma_run_length(start, events);
    lemma_init_at_most_once(start, events);
    lemma_commands_after_init(start, events);
    lemma_commands_answer_completions(start, events);
    lemma_silent_after_failure(start, events);
}


/// Law: while running, the dropped-event check stops the firmware on any
/// non-zero count and lets it go on only on zero. Every count `n != 0` gives
/// `Fail(EventDrop)` and the `Halted` phase; `n == 0` gives `Continue` and
/// the starter keeps running.
pub proof fn lemma_dropped_events_stop(n: u64)
    ensures
        n != 0 ==> starter_step(StarterPhase::Running, StarterEvent::DroppedEvents(n)) == (
            StarterPhase::Halted,
            StarterAction::Fail(RadioFailure::EventDrop),
        ),
        n == 0 ==> starter_step(StarterPhase::Running, StarterEvent::DroppedEvents(n)) == (
            StarterPhase::Running,
            StarterAction::Continue,
        ),
{
}

/// Law: while running, a failed runner pass, a failed completion take, and
/// a completion that is foreign or unsuccessful each stop the firmware with
/// their own marker; a successful completion of the started command reports
/// the command marker and keeps running.
pub proof fn lemma_running_checks(ok: bool, matches_command: bool, succeeded: bool)
    ensures
        !ok ==> starter_step(StarterPhase::Running, StarterEvent::RunnerPassed(ok)) == (
            StarterPhase::Halted,
            StarterAction::Fail(RadioFailure::Runner),
        ),
        ok ==> starter_step(StarterPhase::Running, StarterEvent::RunnerPassed(ok)) == (
            StarterPhase::Running,
            StarterAction::Continue,
        ),
        starter_step(StarterPhase::Running, StarterEvent::CompletionPolled(CompletionPoll::TakeFailed)) == (
            StarterPhase::Halted,
            StarterAction::Fail(RadioFailure::Completion),
        ),
        starter_step(StarterPhase::Running, StarterEvent::CompletionPolled(CompletionPoll::Pending)) == (
            StarterPhase::Running,
            StarterAction::Continue,
        ),
        matches_command && succeeded ==> starter_step(
            StarterPhase::Running,
            StarterEvent::CompletionPolled(CompletionPoll::Finished { matches_command, succeeded }),
        ) == (StarterPhase::Running, StarterAction::Report(RadioMarker::CommandOk)),
        !(matches_command && succeeded) ==> starter_step(
            StarterPhase::Running,
            StarterEvent::CompletionPolled(CompletionPoll::Finished { matches_command, succeeded }),
        ) == (StarterPhase::Halted, StarterAction::Fail(RadioFailure::Command)),
{
}

/// Law: the setup steps run in the order storage, RTOS, main task, policy,
/// controller init, start command; each step's failure stops the firmware
/// with that step's own marker, and only the controller init's success
/// prints the initialization marker.
pub proof fn lemma_setup_steps(ok: bool)
    ensures
        ok ==> starter_step(StarterPhase::Setup(SetupStep::InstallStorage), StarterEvent::SetupDone(ok))
            == (StarterPhase::Setup(SetupStep::StartRtos), StarterAction::Continue),
        ok ==> starter_step(StarterPhase::Setup(SetupStep::StartRtos), StarterEvent::SetupDone(ok))
            == (StarterPhase::Setup(SetupStep::AdoptMainTask), StarterAction::Continue),
        ok ==> starter_step(StarterPhase::Setup(SetupStep::AdoptMainTask), StarterEvent::SetupDone(ok))
            == (StarterPhase::Setup(SetupStep::SetMainTaskPolicy), StarterAction::Continue),
        ok ==> starter_step(StarterPhase::Setup(SetupStep::SetMainTaskPolicy), StarterEvent::SetupDone(ok))
            == (StarterPhase::Setup(SetupStep::InitController), StarterAction::Continue),
        ok ==> starter_step(StarterPhase::Setup(SetupStep::InitController), StarterEvent::SetupDone(ok))
            == (StarterPhase::Setup(SetupStep::StartCommand), StarterAction::Report(RadioMarker::InitOk)),
        ok ==> starter_step(StarterPhase::Setup(SetupStep::StartCommand), StarterEvent::SetupDone(ok))
            == (StarterPhase::Running, StarterAction::Continue),
        !ok ==> starter_step(StarterPhase::Setup(SetupStep::InstallStorage), StarterEvent::SetupDone(ok))
            == (StarterPhase::Halted, StarterAction::Fail(RadioFailure::Storage)),
        !ok ==> starter_step(StarterPhase::Setup(SetupStep::StartRtos), StarterEvent::SetupDone(ok))
            == (StarterPhase::Halted, StarterAction::Fail(RadioFailure::Rtos)),
        !ok ==> starter_step(StarterPhase::Setup(SetupStep::AdoptMainTask), StarterEvent::SetupDone(ok))
            == (StarterPhase::Halted, StarterAction::Fail(RadioFailure::MainTask)),
        !ok ==> starter_step(StarterPhase::Setup(SetupStep::SetMainTaskPolicy), StarterEvent::SetupDone(ok))
            == (StarterPhase::Halted, StarterAction::Fail(RadioFailure::Policy)),
        !ok ==> starter_step(StarterPhase::Setup(SetupStep::InitController), StarterEvent::SetupDone(ok))
            == (StarterPhase::Halted, StarterAction::Fail(RadioFailure::Init)),
        !ok ==> starter_step(StarterPhase::Setup(SetupStep::StartCommand), StarterEvent::SetupDone(ok))
            == (StarterPhase::Halted, StarterAction::Fail(RadioFailure::CommandBusy)),
{
}

} // verus!
