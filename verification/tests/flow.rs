use sgo_email::operation::{OperationRun, RunAction, RunEvent, RunPhase};
use sgo_email::table::{TableAction, TableEvent, TablePhase, TableRun};
use sgo_email::{MissignFieldError, TableProcessError};

fn failure(w: &str) -> TableProcessError {
    TableProcessError::MissingData(MissignFieldError::new(w))
}

#[test]
fn table_sends_every_occurrence_in_order() {
    let (mut run, first) = TableRun::new();
    assert!(matches!(first, TableAction::FetchOccurrences));
    assert!(matches!(run.step(TableEvent::Listed(vec![11, 12])), TableAction::FetchDetails(0)));
    assert!(matches!(run.step(TableEvent::DetailsFetched { events_found: true }), TableAction::RenderEmail(0)));
    assert!(matches!(run.step(TableEvent::Rendered), TableAction::SendEmail(0)));
    assert!(matches!(run.step(TableEvent::Sent), TableAction::MarkSent(0)));
    assert!(matches!(run.step(TableEvent::Marked), TableAction::FetchDetails(1)));
    assert!(matches!(
        run.step(TableEvent::DetailsFetched { events_found: false }),
        TableAction::FetchOracleEvents(1)
    ));
    assert!(matches!(run.step(TableEvent::OracleFetched), TableAction::RenderEmail(1)));
    assert!(matches!(run.step(TableEvent::Rendered), TableAction::SendEmail(1)));
    assert!(matches!(run.step(TableEvent::Sent), TableAction::MarkSent(1)));
    match run.step(TableEvent::Marked) {
        TableAction::Finish(Ok(Some(ids))) => assert_eq!(ids, vec![11, 12]),
        _ => panic!("expected the sent ids"),
    }
    assert!(matches!(run.phase(), TablePhase::Done));
    assert!(matches!(run.step(TableEvent::Marked), TableAction::Idle));
}

#[test]
fn table_without_occurrences() {
    let (mut run, _) = TableRun::new();
    assert!(matches!(run.step(TableEvent::Listed(Vec::new())), TableAction::Finish(Ok(None))));
    assert!(matches!(run.phase(), TablePhase::Done));
}

#[test]
fn table_failure_ends_with_its_error() {
    let (mut run, _) = TableRun::new();
    run.step(TableEvent::Listed(vec![1, 2, 3]));
    run.step(TableEvent::DetailsFetched { events_found: true });
    run.step(TableEvent::Rendered);
    match run.step(TableEvent::Failed(failure("smtp"))) {
        TableAction::Finish(Err(TableProcessError::MissingData(m))) => assert_eq!(m.0, "smtp"),
        _ => panic!("expected the error"),
    }
    assert!(matches!(run.step(TableEvent::Sent), TableAction::Idle));
}

#[test]
fn table_connection_failure() {
    let (mut run, _) = TableRun::new();
    assert!(matches!(run.step(TableEvent::Failed(failure("db"))), TableAction::Finish(Err(_))));
}

#[test]
fn table_ignores_unexpected_events() {
    let (mut run, _) = TableRun::new();
    assert!(matches!(run.step(TableEvent::Sent), TableAction::Idle));
    assert!(matches!(run.phase(), TablePhase::Listing));
    run.step(TableEvent::Listed(vec![5]));
    assert!(matches!(run.step(TableEvent::Marked), TableAction::Idle));
    assert!(matches!(run.phase(), TablePhase::Details(0)));
    assert!(matches!(run.step(TableEvent::OracleFetched), TableAction::Idle));
    assert!(matches!(run.step(TableEvent::DetailsFetched { events_found: true }), TableAction::RenderEmail(0)));
}

#[test]
fn run_logs_and_continues_after_table_failure() {
    let (mut run, first) = OperationRun::new();
    assert!(matches!(first, RunAction::ConnectEmailDb));
    let next = run.step(RunEvent::Connected(vec!["A".to_string(), "B".to_string(), "C".to_string()]));
    assert!(matches!(next, RunAction::ProcessTable(0)));
    assert_eq!(run.company_count(), 3);
    assert_eq!(run.company(2), "C");
    match run.step(RunEvent::TableDone(Ok(Some(vec![4, 5])))) {
        RunAction::LogEmails(0, ids) => assert_eq!(ids, vec![4, 5]),
        _ => panic!("expected the e-mail log"),
    }
    assert!(matches!(run.step(RunEvent::Logged), RunAction::ProcessTable(1)));
    match run.step(RunEvent::TableDone(Err(failure("x")))) {
        RunAction::LogError(1, TableProcessError::MissingData(m)) => assert_eq!(m.0, "x"),
        _ => panic!("expected the error log"),
    }
    assert!(matches!(run.step(RunEvent::Logged), RunAction::ProcessTable(2)));
    assert!(matches!(run.step(RunEvent::TableDone(Ok(None))), RunAction::Finish(Ok(()))));
    assert!(matches!(run.phase(), RunPhase::Done));
    assert!(matches!(run.step(RunEvent::Logged), RunAction::Idle));
}

#[test]
fn run_without_companies() {
    let (mut run, _) = OperationRun::new();
    assert!(matches!(run.step(RunEvent::Connected(Vec::new())), RunAction::Finish(Ok(()))));
}

#[test]
fn run_stops_when_connection_or_log_fails() {
    let (mut run, _) = OperationRun::new();
    assert!(matches!(run.step(RunEvent::Failed(failure("conn"))), RunAction::Finish(Err(_))));
    let (mut run, _) = OperationRun::new();
    run.step(RunEvent::Connected(vec!["A".to_string(), "B".to_string()]));
    run.step(RunEvent::TableDone(Err(failure("t"))));
    match run.step(RunEvent::Failed(failure("log"))) {
        RunAction::Finish(Err(TableProcessError::MissingData(m))) => assert_eq!(m.0, "log"),
        _ => panic!("expected the log error"),
    }
}

#[test]
fn run_ignores_unexpected_events() {
    let (mut run, _) = OperationRun::new();
    assert!(matches!(run.step(RunEvent::Logged), RunAction::Idle));
    run.step(RunEvent::Connected(vec!["A".to_string()]));
    assert!(matches!(run.step(RunEvent::Failed(failure("z"))), RunAction::Idle));
    assert!(matches!(run.phase(), RunPhase::Processing(0)));
}
