//! The Wi-Fi bring-up sequence: initialize, scan, connect, then hand the link
//! to the IP stack. Each stage is one bounded radio operation; the sequence
//! reports a marker after each stage that completes and stops at the first
//! stage that fails or overruns its wait.
use vstd::prelude::*;
use crate::clock::ApplicationWaitDeadline;
use crate::wifi_config::{connect_wait_deadline, initialize_wait_deadline, scan_wait_deadline};

verus! {

/// One bounded radio operation of the bring-up.
#[derive(Clone, Copy, Debug, PartialEq, Eq, Structural)]
pub enum WifiStage {
    Initialize,
    Scan,
    Connect,
}

/// Where the bring-up stands.
#[derive(Clone, Copy, Debug, PartialEq, Eq, Structural)]
pub enum WifiPhase {
    /// Waiting for a stage's operation to finish.
    Waiting(WifiStage),
    /// All stages completed; the link belongs to the IP stack.
    Online,
    /// A stage failed; the firmware stops.
    Halted,
}

/// How a stage's operation ended.
#[derive(Clone, Copy, Debug, PartialEq, Eq, Structural)]
pub enum StageOutcome {
    /// The operation succeeded (for the connect stage: the network was
    /// selected, the credentials accepted, and the link joined).
    Completed,
    /// The radio rejected the operation, or the connection could not be
    /// prepared.
    Failed,
    /// The application's wait for the operation elapsed.
    DeadlineElapsed,
}

/// Success markers of the bring-up, in the order they are reported.
#[derive(Clone, Copy, Debug, PartialEq, Eq, Structural)]
pub enum WifiMarker {
    InitOk,
    ScanOk,
    ConnectOk,
}

/// What the firmware reports after a stage ends.
#[derive(Clone, Copy, Debug, PartialEq, Eq, Structural)]
pub enum BringUpAction {
    /// The stage completed: print its success marker.
    Report(WifiMarker),
    /// The stage failed: print the radio's diagnostic and stop.
    ReportRadioError,
    /// The stage's wait elapsed: print the deadline report naming the stage
    /// and stop.
    ReportDeadline(WifiStage),
}

/// The success marker of a stage.
pub open spec fn stage_marker(stage: WifiStage) -> WifiMarker {
    match stage {
        WifiStage::Initialize => WifiMarker::InitOk,
        WifiStage::Scan => WifiMarker::ScanOk,
        WifiStage::Connect => WifiMarker::ConnectOk,
    }
}

/// The phase after a stage completes.
pub open spec fn phase_after(stage: WifiStage) -> WifiPhase {
    match stage {
        WifiStage::Initialize => WifiPhase::Waiting(WifiStage::Scan),
        WifiStage::Scan => WifiPhase::Waiting(WifiStage::Connect),
        WifiStage::Connect => WifiPhase::Online,
    }
}

/// One transition of the bring-up: the next phase and the report, if any.
/// Outcomes that arrive when no stage is pending change nothing.
pub open spec fn bring_up_step(phase: WifiPhase, outcome: StageOutcome) -> (WifiPhase, Option<BringUpAction>) {
    match phase {
        WifiPhase::Waiting(stage) => match outcome {
            StageOutcome::Completed => (phase_after(stage), Some(BringUpAction::Report(stage_marker(stage)))),
            StageOutcome::Failed => (WifiPhase::Halted, Some(BringUpAction::ReportRadioError)),
            StageOutcome::DeadlineElapsed => (WifiPhase::Halted, Some(BringUpAction::ReportDeadline(stage))),
        },
        _ => (phase, None),
    }
}

/// The state machine of the bring-up.
pub struct WifiBringUp {
    phase: WifiPhase,
}

impl View for WifiBringUp {
    type V = WifiPhase;

    closed spec fn view(&self) -> WifiPhase {
        self.phase
    }
}

impl WifiBringUp {
    /// A bring-up that waits for radio initialization.
    pub fn new() -> (r: Self)
        ensures
            r@ == WifiPhase::Waiting(WifiStage::Initialize),
    {
        WifiBringUp { phase: WifiPhase::Waiting(WifiStage::Initialize) }
    }

    /// The current phase.
    pub fn phase(&self) -> (p: WifiPhase)
        ensures
            p == self@,
    {
        self.phase
    }

    /// Records how the pending stage ended and returns what to report.
    pub fn finish_stage(&mut self, outcome: StageOutcome) -> (action: Option<BringUpAction>)
        ensures
            (final(self)@, action) == bring_up_step(old(self)@, outcome),
    {
        match self.phase {
            WifiPhase::Waiting(stage) => match outcome {
                StageOutcome::Completed => {
                    let (next, marker) = match stage {
                        WifiStage::Initialize => (WifiPhase::Waiting(WifiStage::Scan), WifiMarker::InitOk),
                        WifiStage::Scan => (WifiPhase::Waiting(WifiStage::Connect), WifiMarker::ScanOk),
                        WifiStage::Connect => (WifiPhase::Online, WifiMarker::ConnectOk),
                    };
                    self.phase = next;
                    Some(BringUpAction::Report(marker))
                },
                StageOutcome::Failed => {
                    self.phase = WifiPhase::Halted;
                    Some(BringUpAction::ReportRadioError)
                },
                StageOutcome::DeadlineElapsed => {
                    self.phase = WifiPhase::Halted;
                    Some(BringUpAction::ReportDeadline(stage))
                },
            },
            _ => None,
        }
    }
}

impl WifiStage {
    /// The stage's name in a deadline report.
    pub fn name(&self) -> (s: &'static str)
        ensures
            s@ == match *self {
                WifiStage::Initialize => "initialize"@,
                WifiStage::Scan => "scan"@,
                WifiStage::Connect => "connect"@,
            },
    {
        match self {
            WifiStage::Initialize => "initialize",
            WifiStage::Scan => "scan",
            WifiStage::Connect => "connect",
        }
    }

    /// How long the application waits for the stage's operation: 35 s for
    /// initialize, 30 s for scan, 90 s for connect.
    pub fn wait_deadline(&self) -> (d: ApplicationWaitDeadline)
        ensures
            d@ == match *self {
                WifiStage::Initialize => 35_000nat,
                WifiStage::Scan => 30_000nat,
                WifiStage::Connect => 90_000nat,
            },
    {
        match self {
            WifiStage::Initialize => initialize_wait_deadline(),
            WifiStage::Scan => scan_wait_deadline(),
            WifiStage::Connect => connect_wait_deadline(),
        }
    }
}

impl WifiMarker {
    /// The marker line printed on the UART.
    pub fn text(&self) -> (s: &'static str)
        ensures
            s@ == match *self {
                WifiMarker::InitOk => "WIFI_INIT_OK\r\n"@,
                WifiMarker::ScanOk => "WIFI_SCAN_OK\r\n"@,
                WifiMarker::ConnectOk => "WIFI_CONNECT_OK\r\n"@,
            },
    {
        match self {
            WifiMarker::InitOk => "WIFI_INIT_OK\r\n",
            WifiMarker::ScanOk => "WIFI_SCAN_OK\r\n",
            WifiMarker::ConnectOk => "WIFI_CONNECT_OK\r\n",
        }
    }
}

/// The reports of a bring-up that starts in `phase` and sees `outcomes`, and
/// the phase it ends in.
pub open spec fn bring_up_run(phase: WifiPhase, outcomes: Seq<StageOutcome>) -> (WifiPhase, Seq<BringUpAction>)
    decreases outcomes.len(),
{
    if outcomes.len() == 0 {
        (phase, Seq::empty())
    } else {
        let (next, action) = bring_up_step(phase, outcomes[0]);
        let (last, rest) = bring_up_run(next, outcomes.drop_first());
        match action {
            Some(a) => (last, seq![a] + rest),
            None => (last, rest),
        }
    }
}

/// The `n`-th success marker of a complete bring-up.
pub open spec fn marker_at(n: int) -> WifiMarker {
    if n == 0 {
        WifiMarker::InitOk
    } else if n == 1 {
        WifiMarker::ScanOk
    } else {
        WifiMarker::ConnectOk
    }
}

/// How many stages lie behind a phase.
pub open spec fn stages_done(phase: WifiPhase) -> int {
    match phase {
        WifiPhase::Waiting(WifiStage::Initialize) => 0,
        WifiPhase::Waiting(WifiStage::Scan) => 1,
        WifiPhase::Waiting(WifiStage::Connect) => 2,
        _ => 3,
    }
}

/// The reports of a run from `phase` are success markers in stage order,
/// starting at the phase's stage, possibly ended by one failure report.
pub open spec fn reports_in_order(phase: WifiPhase, actions: Seq<BringUpAction>) -> bool {
    &&& phase == WifiPhase::Halted ==> actions.len() == 0
    &&& actions.len() <= 3 - stages_done(phase)
    &&& forall|i: int|
        0 <= i < actions.len() && (#[trigger] actions[i] is Report) ==> actions[i] == BringUpAction::Report(
            marker_at(stages_done(phase) + i),
        )
    &&& forall|i: int| 0 <= i < actions.len() - 1 ==> #[trigger] actions[i] is Report
}

/// All of the first `n` outcomes completed.
pub open spec fn first_completed(outcomes: Seq<StageOutcome>, n: int) -> bool {
    &&& outcomes.len() >= n
    &&& forall|i: int| 0 <= i < n ==> #[trigger] outcomes[i] == StageOutcome::Completed
}

proof fn lemma_run_from(phase: WifiPhase, outcomes: Seq<StageOutcome>)
    ensures
        reports_in_order(phase, bring_up_run(phase, outcomes).1),
        phase != WifiPhase::Halted ==> (bring_up_run(phase, outcomes).0 == WifiPhase::Online
            <==> first_completed(outcomes, 3 - stages_done(phase))),
        phase == WifiPhase::Halted ==> bring_up_run(phase, outcomes).0 == WifiPhase::Halted,
    decreases outcomes.len(),
{
    let (last, actions) = bring_up_run(phase, outcomes);
    if outcomes.len() == 0 {
    } else {
        let (next, action) = bring_up_step(phase, outcomes[0]);
        let tail = outcomes.drop_first();
        lemma_run_from(next, tail);
        let (last2, rest) = bring_up_run(next, tail);
        match phase {
            WifiPhase::Waiting(stage) => {
                match outcomes[0] {
                    StageOutcome::Completed => {
                        assert(actions == seq![action.unwrap()] + rest);
                        assert(stages_done(next) == stages_done(phase) + 1);
                        assert forall|i: int|
                            0 <= i < actions.len() && (#[trigger] actions[i] is Report) implies actions[i]
                            == BringUpAction::Report(marker_at(stages_done(phase) + i)) by {
                            if i > 0 {
                                assert(actions[i] == rest[i - 1]);
                            }
                        }
                        assert forall|i: int| 0 <= i < actions.len() - 1 implies #[trigger] actions[i] is Report by {
                            if i > 0 {
                                assert(actions[i] == rest[i - 1]);
                            }
                        }
                        if next != WifiPhase::Online {
                            if first_completed(outcomes, 3 - stages_done(phase)) {
                                assert forall|i: int| 0 <= i < 3 - stages_done(next) implies #[trigger] tail[i]
                                    == StageOutcome::Completed by {
                                    assert(tail[i] == outcomes[i + 1]);
                                }
                            }
                            if first_completed(tail, 3 - stages_done(next)) {
                                assert forall|i: int| 0 <= i < 3 - stages_done(phase) implies #[trigger] outcomes[i]
                                    == StageOutcome::Completed by {
                                    if i > 0 {
                                        assert(outcomes[i] == tail[i - 1]);
                                    }
                                }
                            }
                        } else {
                            assert(rest.len() == 0);
                        }
                    },
                    _ => {
                        assert(actions == seq![action.unwrap()] + rest);
                        assert(rest.len() == 0);
                        assert(!first_completed(outcomes, 3 - stages_done(phase)));
                    },
                }
            },
            _ => {
                assert(actions == rest);
            },
        }
    }
}

/// Law: a bring-up reports its success markers in the order initialize,
/// scan, connect; the run is cut short at the first stage that fails or
/// overruns its wait, and that stage's failure report is the last report.
/// The link is handed to the IP stack exactly when the first three stages
/// all completed.
pub proof fn lemma_bring_up_reports_in_order(outcomes: Seq<StageOutcome>)
    ensures
        ({
            let (last, actions) = bring_up_run(WifiPhase::Waiting(WifiStage::Initialize), outcomes);
            &&& actions.len() <= 3
            &&& forall|i: int|
                0 <= i < actions.len() && (#[trigger] actions[i] is Report) ==> actions[i]
                    == BringUpAction::Report(marker_at(i))
            &&& forall|i: int| 0 <= i < actions.len() - 1 ==> #[trigger] actions[i] is Report
            &&& (last == WifiPhase::Online <==> first_completed(outcomes, 3))
        }),
{
    lemma_run_from(WifiPhase::Waiting(WifiStage::Initialize), outcomes);
}


/// Law: a deadline report names exactly the stage that was pending. A step
/// reports `ReportDeadline(s)` if and only if the bring-up was waiting on
/// stage `s` and that stage's wait elapsed; the bring-up then stops.
pub proof fn lemma_deadline_report_names_pending_stage(phase: WifiPhase, outcome: StageOutcome, stage: WifiStage)
    ensures
        bring_up_step(phase, outcome).1 == Some(BringUpAction::ReportDeadline(stage)) <==> (phase
            == WifiPhase::Waiting(stage) && outcome == StageOutcome::DeadlineElapsed),
        bring_up_step(phase, outcome).1 == Some(BringUpAction::ReportDeadline(stage)) ==> bring_up_step(
            phase,
            outcome,
        ).0 == WifiPhase::Halted,
{
}

/// Law: a failed stage reports the radio's diagnostic and stops, and a
/// completed stage reports that stage's own success marker; nothing is
/// reported when no stage is pending.
pub proof fn lemma_stage_reports(phase: WifiPhase, outcome: StageOutcome)
    ensures
        (phase matches WifiPhase::Waiting(_)) && outcome == StageOutcome::Failed ==> bring_up_step(phase, outcome)
            == (WifiPhase::Halted, Some(BringUpAction::ReportRadioError)),
        phase == WifiPhase::Waiting(WifiStage::Initialize) && outcome == StageOutcome::Completed ==> bring_up_step(
            phase,
            outcome,
        ) == (WifiPhase::Waiting(WifiStage::Scan), Some(BringUpAction::Report(WifiMarker::InitOk))),
        phase == WifiPhase::Waiting(WifiStage::Scan) && outcome == StageOutcome::Completed ==> bring_up_step(
            phase,
            outcome,
        ) == (WifiPhase::Waiting(WifiStage::Connect), Some(BringUpAction::Report(WifiMarker::ScanOk))),
        phase == WifiPhase::Waiting(WifiStage::Connect) && outcome == StageOutcome::Completed ==> bring_up_step(
            phase,
            outcome,
        ) == (WifiPhase::Online, Some(BringUpAction::Report(WifiMarker::ConnectOk))),
        !(phase matches WifiPhase::Waiting(_)) ==> bring_up_step(phase, outcome) == (phase, None::<BringUpAction>),
{
}

} // verus!
