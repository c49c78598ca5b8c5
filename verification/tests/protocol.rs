//! The ad-hoc state machine, the row stream, the execute drain loop, and
//! the statement/column data model, exercised on concrete reply sequences.

use pg_exec::{
    execute_step, start, Column, DbError, Error, ExecuteStep, FieldDescription, Message, PgType,
    ProcessOutcome, QueryProcessingState, RowStream, Statement, StreamStep,
};

fn server_error() -> DbError {
    DbError {
        severity: "ERROR".to_string(),
        code: "42P01".to_string(),
        message: "relation does not exist".to_string(),
    }
}

fn int4() -> PgType {
    PgType::new("int4".to_string(), 23)
}

fn field(name: &str, table_oid: u32, column_id: i16, type_oid: u32) -> FieldDescription {
    FieldDescription {
        name: name.to_string(),
        table_oid,
        column_id,
        type_oid,
    }
}

fn advance(state: QueryProcessingState, message: Message) -> QueryProcessingState {
    match state.process_message(message).unwrap() {
        ProcessOutcome::Next(s) => s,
        ProcessOutcome::Resolve(_) => panic!("did not expect a resolve step"),
    }
}

#[test]
fn state_machine_accepts_the_row_description_sequence() {
    let s = QueryProcessingState::Empty;
    let s = advance(s, Message::ParseComplete);
    let s = advance(s, Message::BindComplete);
    let s = advance(s, Message::ParameterDescription(vec![23]));
    let outcome = s
        .process_message(Message::RowDescription(vec![
            field("id", 0, 0, 23),
            field("label", 617, 2, 25),
        ]))
        .unwrap();
    match outcome {
        ProcessOutcome::Resolve(fields) => {
            assert_eq!(fields.len(), 2);
            let types = vec![int4(), PgType::new("text".to_string(), 25)];
            match QueryProcessingState::form_final(&fields, &types) {
                QueryProcessingState::Final(cols) => {
                    assert_eq!(cols.len(), 2);
                    assert_eq!(cols[0].name(), "id");
                    assert_eq!(cols[0].type_().oid(), 23);
                    assert_eq!(cols[0].column_id(), None);
                    assert_eq!(cols[0].table_oid(), None);
                    assert_eq!(cols[1].name(), "label");
                    assert_eq!(cols[1].column_id(), Some(2));
                    assert_eq!(cols[1].table_oid(), Some(617));
                }
                _ => panic!("form_final must reach the final state"),
            }
        }
        ProcessOutcome::Next(_) => panic!("a row description must ask for resolution"),
    }
}

#[test]
fn state_machine_accepts_the_no_data_sequence() {
    let s = QueryProcessingState::Empty;
    let s = advance(s, Message::ParseComplete);
    let s = advance(s, Message::BindComplete);
    let s = advance(s, Message::ParameterDescription(vec![]));
    match s.process_message(Message::NoData).unwrap() {
        ProcessOutcome::Next(QueryProcessingState::Final(cols)) => assert!(cols.is_empty()),
        _ => panic!("NoData must finish with no columns"),
    }
}

#[test]
fn state_machine_rejects_wrong_orderings() {
    let r = QueryProcessingState::Empty.process_message(Message::BindComplete);
    assert!(matches!(r, Err(Error::ProtocolViolation)));

    let r = QueryProcessingState::ParseCompleted.process_message(Message::ParseComplete);
    assert!(matches!(r, Err(Error::ProtocolViolation)));

    let r = QueryProcessingState::BindCompleted.process_message(Message::NoData);
    assert!(matches!(r, Err(Error::ProtocolViolation)));

    let r = QueryProcessingState::Final(vec![]).process_message(Message::ParseComplete);
    assert!(matches!(r, Err(Error::ProtocolViolation)));
}

#[test]
fn state_machine_surfaces_a_server_error_in_any_state() {
    let r = QueryProcessingState::Empty.process_message(Message::ErrorResponse(server_error()));
    match r {
        Err(Error::Server { error }) => assert_eq!(error.code, "42P01"),
        _ => panic!("expected the server's error"),
    }
    let r = QueryProcessingState::ParameterDescribed
        .process_message(Message::ErrorResponse(server_error()));
    assert!(matches!(r, Err(Error::Server { .. })));
}

fn empty_statement() -> Statement {
    Statement::new("s".to_string(), vec![], Vec::<Column>::new())
}

#[test]
fn row_stream_yields_rows_then_count_then_ends() {
    let mut s = RowStream::new(empty_statement());
    assert_eq!(s.rows_affected(), None);

    match s.on_message(Message::DataRow(vec![1, 2])) {
        StreamStep::Row(body) => assert_eq!(body, vec![1, 2]),
        _ => panic!("a data row must be yielded"),
    }
    match s.on_message(Message::DataRow(vec![3])) {
        StreamStep::Row(body) => assert_eq!(body, vec![3]),
        _ => panic!("a data row must be yielded"),
    }
    // the server has not reported completion yet
    assert_eq!(s.rows_affected(), None);
    assert!(!s.is_finished());

    assert!(matches!(
        s.on_message(Message::CommandComplete("SELECT 2".to_string())),
        StreamStep::Continue
    ));
    assert!(matches!(s.on_message(Message::ReadyForQuery), StreamStep::Finished));
    assert!(s.is_finished());
    assert_eq!(s.rows_affected(), Some(2));
}

#[test]
fn row_stream_ends_with_the_server_error() {
    let mut s = RowStream::new(empty_statement());
    match s.on_message(Message::DataRow(vec![9])) {
        StreamStep::Row(_) => {}
        _ => panic!("a data row must be yielded"),
    }
    match s.on_message(Message::ErrorResponse(server_error())) {
        StreamStep::Failed(Error::Server { error }) => {
            assert_eq!(error.message, "relation does not exist");
        }
        _ => panic!("the error must end the sequence"),
    }
    // terminated: no further items are produced
    assert!(s.is_finished());
    assert_eq!(s.rows_affected(), None);
}

#[test]
fn row_stream_fails_on_a_reply_that_does_not_belong() {
    let mut s = RowStream::new(empty_statement());
    assert!(matches!(
        s.on_message(Message::ParseComplete),
        StreamStep::Failed(Error::ProtocolViolation)
    ));
    assert!(s.is_finished());
}

#[test]
fn portal_stream_suspends_without_a_count() {
    // a limited Execute: the server suspends the portal, then becomes ready
    let mut s = RowStream::new(empty_statement());
    match s.on_message(Message::DataRow(vec![5])) {
        StreamStep::Row(_) => {}
        _ => panic!("a data row must be yielded"),
    }
    assert!(matches!(s.on_message(Message::PortalSuspended), StreamStep::Continue));
    assert!(!s.is_finished());
    assert!(matches!(s.on_message(Message::ReadyForQuery), StreamStep::Finished));
    assert!(s.is_finished());
    assert_eq!(s.rows_affected(), None);
}

#[test]
fn row_stream_skips_empty_query_response() {
    let mut s = RowStream::new(empty_statement());
    assert!(matches!(s.on_message(Message::EmptyQueryResponse), StreamStep::Continue));
    assert_eq!(s.rows_affected(), None);
}

#[test]
fn start_accepts_exactly_bind_complete() {
    assert!(start(Message::BindComplete).is_ok());
    assert!(matches!(
        start(Message::ParseComplete),
        Err(Error::ProtocolViolation)
    ));
    match start(Message::ErrorResponse(server_error())) {
        Err(Error::Server { error }) => assert_eq!(error.severity, "ERROR"),
        _ => panic!("the server's error must surface at call time"),
    }
}

#[test]
fn execute_drain_follows_the_reply_sequence() {
    let mut rows: u64 = 0;
    for (msg, expect) in [
        (Message::DataRow(vec![1]), ExecuteStep::Continue(0)),
        (
            Message::CommandComplete("UPDATE 7".to_string()),
            ExecuteStep::Continue(7),
        ),
        (Message::DataRow(vec![2]), ExecuteStep::Continue(7)),
        (Message::ReadyForQuery, ExecuteStep::Done(7)),
    ] {
        let step = execute_step(rows, msg).unwrap();
        assert_eq!(step, expect);
        match step {
            ExecuteStep::Continue(r) => rows = r,
            ExecuteStep::Done(r) => assert_eq!(r, 7),
        }
    }
}

#[test]
fn execute_drain_resets_on_empty_query_and_rejects_strays() {
    assert_eq!(
        execute_step(9, Message::EmptyQueryResponse).unwrap(),
        ExecuteStep::Continue(0)
    );
    assert!(matches!(
        execute_step(0, Message::PortalSuspended),
        Err(Error::ProtocolViolation)
    ));
    assert!(matches!(
        execute_step(0, Message::ErrorResponse(server_error())),
        Err(Error::Server { .. })
    ));
}

#[test]
fn statement_exposes_its_descriptor() {
    let cols = vec![Column::new("id".to_string(), int4(), 1, 44)];
    let stmt = Statement::new("s9".to_string(), vec![int4()], cols);
    assert_eq!(stmt.name(), "s9");
    assert_eq!(stmt.params().len(), 1);
    assert_eq!(stmt.params()[0].oid(), 23);
    assert_eq!(stmt.params()[0].name(), "int4");
    assert_eq!(stmt.columns().len(), 1);
    assert_eq!(stmt.columns()[0].name(), "id");
    assert_eq!(stmt.columns()[0].column_id(), Some(1));
    assert_eq!(stmt.columns()[0].table_oid(), Some(44));

    let unnamed = Statement::unnamed(vec![]);
    assert_eq!(unnamed.name(), "");
    assert!(unnamed.params().is_empty());
}
