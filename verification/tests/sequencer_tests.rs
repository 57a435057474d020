use hid_clock_sync::codec::{encode_handshake_stage, CalendarFields, Stage};
use hid_clock_sync::error::SyncError;
use hid_clock_sync::sequencer::{
    Action, Outcome, SequencerState, FULL_RUN_ACTIONS, INTER_STAGE_DELAY_MS,
};

#[derive(Debug, PartialEq, Eq, Clone)]
enum Call {
    SetReport(Vec<u8>),
    GetReport(u8, usize),
    Sleep(u64),
}

/// A transport that records what it is asked to do and fails on request.
struct FakeTransport {
    calls: Vec<Call>,
    sets: usize,
    gets: usize,
    fail_set: Option<usize>,
    fail_get: Option<usize>,
}

impl FakeTransport {
    fn accepting() -> Self {
        FakeTransport { calls: Vec::new(), sets: 0, gets: 0, fail_set: None, fail_get: None }
    }

    fn send_feature_report(&mut self, bytes: &[u8]) -> Outcome {
        self.sets += 1;
        self.calls.push(Call::SetReport(bytes.to_vec()));
        if self.fail_set == Some(self.sets) {
            Outcome::Failed
        } else {
            Outcome::Completed
        }
    }

    fn get_feature_report(&mut self, report_id: u8, length: usize) -> Outcome {
        self.gets += 1;
        self.calls.push(Call::GetReport(report_id, length));
        if self.fail_get == Some(self.gets) {
            Outcome::Failed
        } else {
            Outcome::Completed
        }
    }

    fn sleep(&mut self, millis: u64) -> Outcome {
        self.calls.push(Call::Sleep(millis));
        Outcome::Completed
    }
}

struct Report {
    result: Result<(), SyncError>,
    reports: usize,
    state: SequencerState,
}

fn sample() -> CalendarFields {
    CalendarFields { year: 2025, month: 6, day: 11, hour: 9, minute: 36, second: 58 }
}

fn drive(transport: &mut FakeTransport, fields: &CalendarFields) -> Report {
    let mut state = SequencerState::start();
    let mut action = state.action(fields);
    let mut reports = 0;
    for _ in 0..100 {
        let outcome = match &action {
            Action::SetReport(buffer) => transport.send_feature_report(buffer.as_slice()),
            Action::GetReport { report_id, length } => {
                transport.get_feature_report(*report_id, *length)
            }
            Action::Delay { millis } => transport.sleep(*millis),
            Action::Finish => {
                reports += 1;
                return Report { result: Ok(()), reports, state };
            }
            Action::Abort(error) => {
                reports += 1;
                return Report { result: Err(*error), reports, state };
            }
        };
        let turn = state.step(outcome, fields);
        state = turn.0;
        action = turn.1;
    }
    panic!("the run did not end");
}

fn stage_bytes(stage: Stage) -> Vec<u8> {
    encode_handshake_stage(stage, &sample()).as_slice().to_vec()
}

#[test]
fn third_set_failure_halts_with_stage_two() {
    let mut transport = FakeTransport::accepting();
    transport.fail_set = Some(3);
    let report = drive(&mut transport, &sample());
    assert_eq!(report.result, Err(SyncError::TransferError { stage: Stage::TimeSet }));
    assert_eq!(report.result.unwrap_err().stage_index(), Some(2));
    assert_eq!(report.state, SequencerState::Failed(Stage::TimeSet));
    assert_eq!(report.reports, 1);
    assert_eq!(transport.sets, 3);
    assert_eq!(transport.gets, 2);
    assert_eq!(
        transport.calls,
        vec![
            Call::SetReport(stage_bytes(Stage::First)),
            Call::GetReport(0, 65),
            Call::Sleep(30),
            Call::SetReport(stage_bytes(Stage::Second)),
            Call::GetReport(0, 65),
            Call::Sleep(30),
            Call::SetReport(stage_bytes(Stage::TimeSet)),
        ]
    );
    assert!(!transport.calls.contains(&Call::SetReport(stage_bytes(Stage::Last))));
}

#[test]
fn full_run_completes_and_reports_success_once() {
    let mut transport = FakeTransport::accepting();
    let report = drive(&mut transport, &sample());
    assert_eq!(report.result, Ok(()));
    assert_eq!(report.state, SequencerState::Done);
    assert_eq!(report.reports, 1);
    assert_eq!(transport.sets, 4);
    assert_eq!(transport.gets, 4);
    assert_eq!(transport.calls.len(), FULL_RUN_ACTIONS);
    assert_eq!(
        transport.calls,
        vec![
            Call::SetReport(stage_bytes(Stage::First)),
            Call::GetReport(0, 65),
            Call::Sleep(INTER_STAGE_DELAY_MS),
            Call::SetReport(stage_bytes(Stage::Second)),
            Call::GetReport(0, 65),
            Call::Sleep(INTER_STAGE_DELAY_MS),
            Call::SetReport(stage_bytes(Stage::TimeSet)),
            Call::GetReport(0, 65),
            Call::Sleep(INTER_STAGE_DELAY_MS),
            Call::SetReport(stage_bytes(Stage::Last)),
            Call::GetReport(0, 65),
            Call::Sleep(INTER_STAGE_DELAY_MS),
        ]
    );
    assert_eq!(INTER_STAGE_DELAY_MS, 30);
    assert_eq!(FULL_RUN_ACTIONS, 12);
}

#[test]
fn full_run_sends_the_calendar_fields_in_the_third_set() {
    let mut transport = FakeTransport::accepting();
    drive(&mut transport, &sample());
    let sets: Vec<&Call> = transport.calls.iter().filter(|c| matches!(c, Call::SetReport(_))).collect();
    match sets[2] {
        Call::SetReport(bytes) => {
            assert_eq!(&bytes[0..9], &[0x00, 0x01, 0x5A, 25, 6, 11, 9, 36, 58]);
            assert_eq!(&bytes[63..65], &[0xAA, 0x55]);
        }
        other => panic!("not a SET: {:?}", other),
    }
}

#[test]
fn each_set_failure_reports_its_stage() {
    let stages = [Stage::First, Stage::Second, Stage::TimeSet, Stage::Last];
    for (index, stage) in stages.into_iter().enumerate() {
        let mut transport = FakeTransport::accepting();
        transport.fail_set = Some(index + 1);
        let report = drive(&mut transport, &sample());
        assert_eq!(report.result, Err(SyncError::TransferError { stage }));
        assert_eq!(transport.sets, index + 1);
        assert_eq!(transport.gets, index);
        assert_eq!(transport.calls.len(), 3 * index + 1);
    }
}

#[test]
fn each_get_failure_reports_its_stage() {
    let stages = [Stage::First, Stage::Second, Stage::TimeSet, Stage::Last];
    for (index, stage) in stages.into_iter().enumerate() {
        let mut transport = FakeTransport::accepting();
        transport.fail_get = Some(index + 1);
        let report = drive(&mut transport, &sample());
        assert_eq!(report.result, Err(SyncError::TransferError { stage }));
        assert_eq!(transport.sets, index + 1);
        assert_eq!(transport.gets, index + 1);
        assert_eq!(transport.calls.len(), 3 * index + 2);
    }
}

#[test]
fn start_asks_for_the_first_set() {
    let state = SequencerState::start();
    assert_eq!(state, SequencerState::Setting(Stage::First));
    assert!(!state.is_terminal());
    assert_eq!(state.result(), None);
    assert_eq!(
        state.action(&sample()),
        Action::SetReport(encode_handshake_stage(Stage::First, &sample()))
    );
}

#[test]
fn states_advance_in_order() {
    let done = Outcome::Completed;
    assert_eq!(SequencerState::Setting(Stage::First).advance(done), SequencerState::Getting(Stage::First));
    assert_eq!(SequencerState::Getting(Stage::First).advance(done), SequencerState::Pausing(Stage::First));
    assert_eq!(SequencerState::Pausing(Stage::First).advance(done), SequencerState::Setting(Stage::Second));
    assert_eq!(SequencerState::Getting(Stage::Second).advance(done), SequencerState::Pausing(Stage::Second));
    assert_eq!(SequencerState::Pausing(Stage::Second).advance(done), SequencerState::Setting(Stage::TimeSet));
    assert_eq!(SequencerState::Pausing(Stage::TimeSet).advance(done), SequencerState::Setting(Stage::Last));
    assert_eq!(SequencerState::Setting(Stage::Last).advance(done), SequencerState::Getting(Stage::Last));
    assert_eq!(SequencerState::Getting(Stage::Last).advance(done), SequencerState::Pausing(Stage::Last));
    assert_eq!(SequencerState::Pausing(Stage::Last).advance(done), SequencerState::Done);
}

#[test]
fn a_pause_cannot_fail() {
    assert_eq!(
        SequencerState::Pausing(Stage::First).advance(Outcome::Failed),
        SequencerState::Setting(Stage::Second)
    );
    assert_eq!(SequencerState::Pausing(Stage::Last).advance(Outcome::Failed), SequencerState::Done);
}

#[test]
fn finished_runs_stay_finished() {
    for outcome in [Outcome::Completed, Outcome::Failed] {
        assert_eq!(SequencerState::Done.advance(outcome), SequencerState::Done);
        assert_eq!(
            SequencerState::Failed(Stage::Second).advance(outcome),
            SequencerState::Failed(Stage::Second)
        );
    }
    assert!(SequencerState::Done.is_terminal());
    assert!(SequencerState::Failed(Stage::First).is_terminal());
    assert_eq!(SequencerState::Done.result(), Some(Ok(())));
    assert_eq!(
        SequencerState::Failed(Stage::Last).result(),
        Some(Err(SyncError::TransferError { stage: Stage::Last }))
    );
    assert_eq!(SequencerState::Done.action(&sample()), Action::Finish);
    assert_eq!(
        SequencerState::Failed(Stage::Last).action(&sample()),
        Action::Abort(SyncError::TransferError { stage: Stage::Last })
    );
}

#[test]
fn actions_follow_the_state() {
    assert_eq!(
        SequencerState::Getting(Stage::TimeSet).action(&sample()),
        Action::GetReport { report_id: 0, length: 65 }
    );
    assert_eq!(
        SequencerState::Pausing(Stage::TimeSet).action(&sample()),
        Action::Delay { millis: 30 }
    );
    assert_eq!(
        SequencerState::Setting(Stage::TimeSet).action(&sample()),
        Action::SetReport(encode_handshake_stage(Stage::TimeSet, &sample()))
    );
}

#[test]
fn step_is_advance_then_action() {
    let fields = sample();
    let state = SequencerState::Getting(Stage::Second);
    let turn = state.step(Outcome::Completed, &fields);
    assert_eq!(turn.0, state.advance(Outcome::Completed));
    assert_eq!(turn.1, turn.0.action(&fields));
    let failed = state.step(Outcome::Failed, &fields);
    assert_eq!(failed.0, SequencerState::Failed(Stage::Second));
    assert_eq!(failed.1, Action::Abort(SyncError::TransferError { stage: Stage::Second }));
}
