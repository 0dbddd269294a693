use ebpf_fuzzer::oracle::{oracle_step, OracleError, OracleEvent, OracleState};

fn drive(events: Vec<OracleEvent>) -> (OracleState, usize, usize) {
    let mut creates = 0;
    let mut destroys = 0;
    let mut state = OracleState::AwaitCreate;
    for e in events {
        if matches!(e, OracleEvent::CreateDone) {
            creates += 1;
        }
        if matches!(e, OracleEvent::DestroyDone) {
            destroys += 1;
        }
        state = oracle_step(state, e);
    }
    (state, creates, destroys)
}

#[test]
fn successful_run_returns_the_output_value() {
    let (state, creates, destroys) = drive(vec![
        OracleEvent::CreateDone,
        OracleEvent::LoadDone { status: 0, message: String::new() },
        OracleEvent::ExecDone { status: 0, value: 0 },
        OracleEvent::DestroyDone,
    ]);
    assert_eq!(state, OracleState::Complete(Ok(0)));
    assert_eq!(creates, destroys);
}

#[test]
fn rejected_load_destroys_the_instance_and_reports_the_message() {
    let events = vec![
        OracleEvent::CreateDone,
        OracleEvent::LoadDone { status: -1, message: String::from("invalid instruction") },
    ];
    let (state, _, _) = drive(events);
    // The verdict is settled but the instance still has to be destroyed.
    assert_eq!(
        state,
        OracleState::AwaitDestroy(Err(OracleError::LoadRejected(String::from(
            "invalid instruction"
        ))))
    );
    let state = oracle_step(state, OracleEvent::DestroyDone);
    assert_eq!(
        state,
        OracleState::Complete(Err(OracleError::LoadRejected(String::from(
            "invalid instruction"
        ))))
    );
}

#[test]
fn failed_execution_reports_execution_failed() {
    let (state, creates, destroys) = drive(vec![
        OracleEvent::CreateDone,
        OracleEvent::LoadDone { status: 0, message: String::new() },
        OracleEvent::ExecDone { status: 7, value: 0xDEAD },
        OracleEvent::DestroyDone,
    ]);
    assert_eq!(state, OracleState::Complete(Err(OracleError::ExecutionFailed)));
    assert_eq!(creates, destroys);
}

#[test]
fn every_completed_run_balances_creates_and_destroys() {
    let runs = vec![
        vec![
            OracleEvent::CreateDone,
            OracleEvent::LoadDone { status: 0, message: String::new() },
            OracleEvent::ExecDone { status: 0, value: 3 },
            OracleEvent::DestroyDone,
        ],
        vec![
            OracleEvent::CreateDone,
            OracleEvent::LoadDone { status: -2, message: String::from("too long") },
            OracleEvent::DestroyDone,
        ],
        vec![
            OracleEvent::CreateDone,
            OracleEvent::LoadDone { status: 0, message: String::new() },
            OracleEvent::ExecDone { status: 1, value: 0 },
            OracleEvent::DestroyDone,
        ],
    ];
    let mut total_creates = 0;
    let mut total_destroys = 0;
    for run in runs {
        let (state, creates, destroys) = drive(run);
        assert!(matches!(state, OracleState::Complete(_)));
        assert_eq!(creates, destroys);
        total_creates += creates;
        total_destroys += destroys;
    }
    assert_eq!(total_creates, total_destroys);
}

#[test]
fn unexpected_events_change_nothing() {
    let state = oracle_step(OracleState::AwaitCreate, OracleEvent::DestroyDone);
    assert_eq!(state, OracleState::AwaitCreate);
    let state = oracle_step(
        OracleState::AwaitLoad,
        OracleEvent::ExecDone { status: 0, value: 1 },
    );
    assert_eq!(state, OracleState::AwaitLoad);
}
