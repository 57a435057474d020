//! The handshake as a state machine.
//!
//! A run walks the four stages in order. For each stage it sends the stage's
//! command as a SET feature report, reads the answer back with a GET feature
//! report, and pauses to give the firmware time before it goes on. The machine decides; the caller
//! performs each action on the open device and reports how it went. The first
//! failed transfer ends the run, and nothing is retried.

use vstd::prelude::*;
use crate::codec::{
    encode_handshake_stage, stage_bytes, CalendarFields, FeatureReportBuffer, Stage, REPORT_ID,
    REPORT_LEN,
};
use crate::error::SyncError;

verus! {

/// Milliseconds to wait after each stage.
pub const INTER_STAGE_DELAY_MS: u64 = 30;

/// Number of actions of a run in which every transfer completes: for each of
/// the four stages a SET transfer, a GET transfer and a pause.
pub const FULL_RUN_ACTIONS: usize = 12;

/// How the caller fared with the action it was given.
#[derive(Clone, Copy, Debug, PartialEq, Eq, Structural)]
pub enum Outcome {
    /// The transfer went through, or the pause elapsed.
    Completed,
    /// The transport reported a failure.
    Failed,
}

/// Where a run stands.
#[derive(Clone, Copy, Debug, PartialEq, Eq, Structural)]
pub enum SequencerState {
    /// The SET transfer of the stage is due.
    Setting(Stage),
    /// The GET transfer of the stage is due.
    Getting(Stage),
    /// The pause after the stage is due.
    Pausing(Stage),
    /// All four stages went through.
    Done,
    /// A transfer of the stage failed.
    Failed(Stage),
}

/// What the caller has to do next.
#[derive(Debug, PartialEq, Eq)]
pub enum Action {
    /// Send the buffer as a SET feature report.
    SetReport(FeatureReportBuffer),
    /// Read a feature report of the given id into a buffer of the given
    /// length. What the device answers is not inspected.
    GetReport { report_id: u8, length: usize },
    /// Wait for the given number of milliseconds.
    Delay { millis: u64 },
    /// Report success: the run is over.
    Finish,
    /// Report the error: the run is over.
    Abort(SyncError),
}

/// An action with its buffer taken as a sequence of bytes.
pub ghost enum ActionModel {
    SetReport(Seq<u8>),
    GetReport { report_id: u8, length: usize },
    Delay { millis: u64 },
    Finish,
    Abort(SyncError),
}

impl View for Action {
    type V = ActionModel;

    open spec fn view(&self) -> ActionModel {
        match *self {
            Action::SetReport(buffer) => ActionModel::SetReport(buffer@),
            Action::GetReport { report_id, length } => ActionModel::GetReport { report_id, length },
            Action::Delay { millis } => ActionModel::Delay { millis },
            Action::Finish => ActionModel::Finish,
            Action::Abort(error) => ActionModel::Abort(error),
        }
    }
}

impl SequencerState {
    /// The state in which every run starts.
    pub open spec fn initial() -> SequencerState {
        SequencerState::Setting(Stage::First)
    }

    /// The run is over, in success or in failure.
    pub open spec fn terminal(self) -> bool {
        self is Done || self is Failed
    }

    /// The state that follows when the pending action ended with `outcome`.
    pub open spec fn next(self, outcome: Outcome) -> SequencerState {
        match self {
            SequencerState::Setting(stage) => match outcome {
                Outcome::Failed => SequencerState::Failed(stage),
                Outcome::Completed => if stage.spec_expects_response() {
                    SequencerState::Getting(stage)
                } else {
                    SequencerState::Pausing(stage)
                },
            },
            SequencerState::Getting(stage) => match outcome {
                Outcome::Failed => SequencerState::Failed(stage),
                Outcome::Completed => SequencerState::Pausing(stage),
            },
            SequencerState::Pausing(stage) => match stage.spec_successor() {
                Some(following) => SequencerState::Setting(following),
                None => SequencerState::Done,
            },
            SequencerState::Done => SequencerState::Done,
            SequencerState::Failed(stage) => SequencerState::Failed(stage),
        }
    }

    /// The action that is due in this state.
    pub open spec fn pending(self, fields: CalendarFields) -> ActionModel {
        match self {
            SequencerState::Setting(stage) => ActionModel::SetReport(stage_bytes(stage, fields)),
            SequencerState::Getting(_) => ActionModel::GetReport { report_id: 0, length: 65 },
            SequencerState::Pausing(_) => ActionModel::Delay { millis: 30 },
            SequencerState::Done => ActionModel::Finish,
            SequencerState::Failed(stage) => ActionModel::Abort(
                SyncError::TransferError { stage },
            ),
        }
    }

    /// How far the run has come: while it is under way, the number of actions
    /// behind it; once it is over, a number above that of any state under way.
    pub open spec fn progress(self) -> nat {
        match self {
            SequencerState::Setting(stage) => 3 * stage.spec_index(),
            SequencerState::Getting(stage) => 3 * stage.spec_index() + 1,
            SequencerState::Pausing(stage) => 3 * stage.spec_index() + 2,
            SequencerState::Done => 12,
            SequencerState::Failed(_) => 12,
        }
    }

    /// The action that is due in this state embeds the calendar fields.
    pub open spec fn reads_fields(self) -> bool {
        self == SequencerState::Setting(Stage::TimeSet)
    }

    /// What the run reports once it is over.
    pub open spec fn verdict(self) -> Option<Result<(), SyncError>> {
        match self {
            SequencerState::Done => Some(Ok(())),
            SequencerState::Failed(stage) => Some(Err(SyncError::TransferError { stage })),
            _ => None,
        }
    }

    /// The state in which every run starts: the first SET transfer is due.
    pub fn start() -> (state: SequencerState)
        ensures
            state == Self::initial(),
    {
        SequencerState::Setting(Stage::First)
    }

    /// Tells whether the run is over.
    pub fn is_terminal(&self) -> (over: bool)
        ensures
            over == self.terminal(),
    {
        match self {
            SequencerState::Done => true,
            SequencerState::Failed(_) => true,
            _ => false,
        }
    }

    /// What the run reports once it is over, and `None` while it is under way.
    pub fn result(&self) -> (verdict: Option<Result<(), SyncError>>)
        ensures
            verdict == self.verdict(),
            verdict.is_some() == self.terminal(),
    {
        match self {
            SequencerState::Done => Some(Ok(())),
            SequencerState::Failed(stage) => Some(Err(SyncError::TransferError { stage: *stage })),
            _ => None,
        }
    }

    /// The action that is due in this state.
    pub fn action(&self, fields: &CalendarFields) -> (action: Action)
        requires
            self.reads_fields() ==> fields.encodable(),
        ensures
            action@ == self.pending(*fields),
    {
        match self {
            SequencerState::Setting(stage) => Action::SetReport(encode_handshake_stage(*stage, fields)),
            SequencerState::Getting(_) => Action::GetReport { report_id: REPORT_ID, length: REPORT_LEN },
            SequencerState::Pausing(_) => Action::Delay { millis: INTER_STAGE_DELAY_MS },
            SequencerState::Done => Action::Finish,
            SequencerState::Failed(stage) => Action::Abort(
                SyncError::TransferError { stage: *stage },
            ),
        }
    }

    /// The state that follows when the pending action ended with `outcome`.
    ///
    /// A failed transfer ends the run with the stage at which it failed. A
    /// pause cannot fail: its outcome is not looked at. A run that is over
    /// stays as it is.
    pub fn advance(self, outcome: Outcome) -> (state: SequencerState)
        ensures
            state == self.next(outcome),
    {
        match self {
            SequencerState::Setting(stage) => match outcome {
                Outcome::Failed => SequencerState::Failed(stage),
                Outcome::Completed => if stage.expects_response() {
                    SequencerState::Getting(stage)
                } else {
                    SequencerState::Pausing(stage)
                },
            },
            SequencerState::Getting(stage) => match outcome {
                Outcome::Failed => SequencerState::Failed(stage),
                Outcome::Completed => SequencerState::Pausing(stage),
            },
            SequencerState::Pausing(stage) => match stage.successor() {
                Some(following) => SequencerState::Setting(following),
                None => SequencerState::Done,
            },
            SequencerState::Done => SequencerState::Done,
            SequencerState::Failed(stage) => SequencerState::Failed(stage),
        }
    }

    /// One turn of the run: takes the outcome of the action that was pending
    /// and returns the next state with the action that is due in it.
    pub fn step(self, outcome: Outcome, fields: &CalendarFields) -> (turn: (SequencerState, Action))
        requires
            self.next(outcome).reads_fields() ==> fields.encodable(),
        ensures
            turn.0 == self.next(outcome),
            turn.1@ == self.next(outcome).pending(*fields),
    {
        let state = self.advance(outcome);
        let action = state.action(fields);
        (state, action)
    }
}

/// The state of a run after the given outcomes, the oldest first.
pub open spec fn run(outcomes: Seq<Outcome>) -> SequencerState
    decreases outcomes.len(),
{
    if outcomes.len() == 0 {
        SequencerState::initial()
    } else {
        run(outcomes.drop_last()).next(outcomes.last())
    }
}

/// Every transfer among the first `n` outcomes completed. In a run without a
/// failure every third outcome, counted from zero, is that of a pause.
pub open spec fn transfers_completed(outcomes: Seq<Outcome>, n: int) -> bool {
    forall|i: int|
        0 <= i < n && i < outcomes.len() && i % 3 != 2 ==> #[trigger] outcomes[i]
            == Outcome::Completed
}

/// The first failed transfer is the one at place `p`.
pub open spec fn first_failure_at(outcomes: Seq<Outcome>, p: int) -> bool {
    &&& 0 <= p < outcomes.len()
    &&& p < 12
    &&& p % 3 != 2
    &&& outcomes[p] == Outcome::Failed
    &&& transfers_completed(outcomes, p)
}

/// The stage to which the transfer at place `p` of a run belongs.
pub open spec fn stage_at(p: int) -> Stage {
    if p < 3 {
        Stage::First
    } else if p < 6 {
        Stage::Second
    } else if p < 9 {
        Stage::TimeSet
    } else {
        Stage::Last
    }
}

/// What a state says of the outcomes that led to it.
spec fn explains(state: SequencerState, outcomes: Seq<Outcome>) -> bool {
    match state {
        SequencerState::Setting(_) | SequencerState::Getting(_) => {
            &&& outcomes.len() == state.progress()
            &&& transfers_completed(outcomes, outcomes.len() as int)
        },
        SequencerState::Pausing(_) => {
            &&& outcomes.len() == state.progress()
            &&& transfers_completed(outcomes, outcomes.len() as int)
        },
        SequencerState::Done => outcomes.len() >= 12 && transfers_completed(outcomes, 12),
        SequencerState::Failed(stage) => exists|p: int| #[trigger]
            first_failure_at(outcomes, p) && stage_at(p) == stage,
    }
}

proof fn lemma_run_explained(outcomes: Seq<Outcome>)
    ensures
        explains(run(outcomes), outcomes),
    decreases outcomes.len(),
{
    if outcomes.len() > 0 {
        let earlier = outcomes.drop_last();
        let before = run(earlier);
        lemma_run_explained(earlier);
        assert(forall|i: int| 0 <= i < earlier.len() ==> earlier[i] == outcomes[i]);
        match before {
            SequencerState::Failed(stage) => {
                let p = choose|p: int| #[trigger]
                    first_failure_at(earlier, p) && stage_at(p) == stage;
                assert(first_failure_at(outcomes, p));
            },
            SequencerState::Done => {},
            SequencerState::Pausing(_) => {},
            SequencerState::Setting(_) | SequencerState::Getting(_) => {
                if outcomes.last() == Outcome::Failed {
                    assert(first_failure_at(outcomes, earlier.len() as int));
                }
            },
        }
    }
}

/// No step leads backwards: progress never falls, and it rises with every step
/// of a run that is not over. A run that is over stays where it is.
pub proof fn lemma_no_backward_step(state: SequencerState, outcome: Outcome)
    ensures
        state.next(outcome).progress() >= state.progress(),
        !state.terminal() ==> state.next(outcome).progress() > state.progress(),
        state.terminal() ==> state.next(outcome) == state,
{
}

/// A failed SET or GET transfer ends the run at once with the stage at which
/// it failed, the action that is due from then on is to report that error,
/// and no later outcome starts another transfer.
pub proof fn lemma_failure_halts(stage: Stage, later: Outcome, fields: CalendarFields)
    ensures
        SequencerState::Setting(stage).next(Outcome::Failed) == SequencerState::Failed(stage),
        SequencerState::Getting(stage).next(Outcome::Failed) == SequencerState::Failed(stage),
        SequencerState::Failed(stage).next(later) == SequencerState::Failed(stage),
        SequencerState::Failed(stage).pending(fields) == ActionModel::Abort(
            SyncError::TransferError { stage },
        ),
        SequencerState::Failed(stage).verdict() == Some(
            Err::<(), SyncError>(SyncError::TransferError { stage }),
        ),
{
}

/// A run ends in success exactly when the SET and GET transfers of all four
/// stages completed and the pause of each stage was taken: twelve actions.
pub proof fn lemma_done_iff_all_transfers_completed(outcomes: Seq<Outcome>)
    ensures
        run(outcomes) == SequencerState::Done <==> (outcomes.len() >= 12 && transfers_completed(
            outcomes,
            12,
        )),
{
    lemma_run_explained(outcomes);
    if outcomes.len() >= 12 && transfers_completed(outcomes, 12) {
        match run(outcomes) {
            SequencerState::Failed(stage) => {
                let p = choose|p: int| #[trigger]
                    first_failure_at(outcomes, p) && stage_at(p) == stage;
                assert(outcomes[p] == Outcome::Completed);
            },
            _ => {},
        }
    }
}

/// When a transfer fails after all the transfers before it completed, the
/// run ends in failure and names the stage of that transfer, whatever was
/// reported afterwards.
pub proof fn lemma_first_failure_decides(outcomes: Seq<Outcome>, p: int)
    requires
        first_failure_at(outcomes, p),
    ensures
        run(outcomes) == SequencerState::Failed(stage_at(p)),
        p == 3 * stage_at(p).spec_index() || p == 3 * stage_at(p).spec_index() + 1,
{
    lemma_run_explained(outcomes);
    match run(outcomes) {
        SequencerState::Failed(stage) => {
            let q = choose|q: int| #[trigger]
                first_failure_at(outcomes, q) && stage_at(q) == stage;
            if q < p {
                assert(outcomes[q] == Outcome::Completed);
            } else if p < q {
                assert(outcomes[p] == Outcome::Completed);
            }
        },
        SequencerState::Done => {
            assert(outcomes[p] == Outcome::Completed);
        },
        _ => {
            assert(outcomes[p] == Outcome::Completed);
        },
    }
}

/// A run that ended in failure had a transfer of the stage it names fail
/// after all the transfers before it completed.
pub proof fn lemma_failure_has_a_cause(outcomes: Seq<Outcome>, stage: Stage)
    requires
        run(outcomes) == SequencerState::Failed(stage),
    ensures
        exists|p: int| #[trigger] first_failure_at(outcomes, p) && stage_at(p) == stage,
{
    lemma_run_explained(outcomes);
}

/// While a run is under way, the transfers so far all completed and the state
/// counts them: after `3 * k` outcomes the SET transfer of stage `k` is due,
/// so no stage is started before the stages ahead of it went through.
pub proof fn lemma_stages_in_order(outcomes: Seq<Outcome>)
    requires
        !run(outcomes).terminal(),
    ensures
        run(outcomes).progress() == outcomes.len(),
        outcomes.len() < 12,
        transfers_completed(outcomes, outcomes.len() as int),
{
    lemma_run_explained(outcomes);
}


} // verus!
