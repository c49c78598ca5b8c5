//! Byte-level checks of the encoded request batches against the wire
//! encoders of postgres-protocol called directly, plus the binder's error
//! behaviour and the command-tag parser.

use pg_exec::{
    encode_bind, encode_close, query, query_portal, query_with_param_types, Column, Error, PgType,
    Portal, SqlValue, Statement,
};

fn direct_bind(
    portal: &str,
    stmt: &str,
    formats: Vec<i16>,
    values: Vec<Option<Vec<u8>>>,
) -> Vec<u8> {
    let mut b = bytes::BytesMut::new();
    let r = postgres_protocol::message::frontend::bind(
        portal,
        stmt,
        formats.into_iter(),
        values.into_iter(),
        |v: Option<Vec<u8>>, b: &mut bytes::BytesMut| match v {
            Some(x) => {
                bytes::BufMut::put_slice(b, &x);
                Ok(postgres_protocol::IsNull::No)
            }
            None => Ok(postgres_protocol::IsNull::Yes),
        },
        Some(1),
        &mut b,
    );
    assert!(r.is_ok());
    b.to_vec()
}

fn direct_execute(portal: &str, max_rows: i32) -> Vec<u8> {
    let mut b = bytes::BytesMut::new();
    postgres_protocol::message::frontend::execute(portal, max_rows, &mut b).unwrap();
    b.to_vec()
}

fn direct_sync() -> Vec<u8> {
    let mut b = bytes::BytesMut::new();
    postgres_protocol::message::frontend::sync(&mut b);
    b.to_vec()
}

fn direct_parse(name: &str, query_text: &str, oids: Vec<u32>) -> Vec<u8> {
    let mut b = bytes::BytesMut::new();
    postgres_protocol::message::frontend::parse(name, query_text, oids.into_iter(), &mut b)
        .unwrap();
    b.to_vec()
}

fn direct_describe_statement(name: &str) -> Vec<u8> {
    let mut b = bytes::BytesMut::new();
    postgres_protocol::message::frontend::describe(b'S', name, &mut b).unwrap();
    b.to_vec()
}

fn direct_close_statement(name: &str) -> Vec<u8> {
    let mut b = bytes::BytesMut::new();
    postgres_protocol::message::frontend::close(b'S', name, &mut b).unwrap();
    b.to_vec()
}

fn int4() -> PgType {
    PgType::new("int4".to_string(), 23)
}

fn text_type() -> PgType {
    PgType::new("text".to_string(), 25)
}

fn stmt_two_params() -> Statement {
    Statement::new("s7".to_string(), vec![int4(), text_type()], Vec::<Column>::new())
}

#[test]
fn bind_matches_direct_encoding() {
    let stmt = stmt_two_params();
    let params = vec![
        SqlValue::Binary(vec![0, 0, 0, 5]),
        SqlValue::Text(b"hi".to_vec()),
    ];
    let mut buf: Vec<u8> = Vec::new();
    encode_bind(&stmt, &params, "p1", &mut buf).unwrap();
    let expected = direct_bind(
        "p1",
        "s7",
        vec![1, 0],
        vec![Some(vec![0, 0, 0, 5]), Some(b"hi".to_vec())],
    );
    assert_eq!(buf, expected);
}

#[test]
fn bind_null_parameter_matches_direct_encoding() {
    let stmt = Statement::new("n".to_string(), vec![int4()], Vec::<Column>::new());
    let mut buf: Vec<u8> = Vec::new();
    encode_bind(&stmt, &vec![SqlValue::Null], "", &mut buf).unwrap();
    let expected = direct_bind("", "n", vec![1], vec![None]);
    assert_eq!(buf, expected);
}

#[test]
fn bind_count_mismatch_writes_nothing() {
    let stmt = stmt_two_params();
    let params = vec![SqlValue::Binary(vec![1])];
    let mut buf: Vec<u8> = Vec::new();
    let r = encode_bind(&stmt, &params, "", &mut buf);
    match r {
        Err(Error::ParameterCountMismatch { expected, actual }) => {
            assert_eq!(expected, 2);
            assert_eq!(actual, 1);
        }
        other => panic!("expected a count mismatch, got {:?}", other.is_ok()),
    }
    assert!(buf.is_empty());
}

#[test]
fn bind_reports_first_failing_parameter_index() {
    let stmt = Statement::new(
        "s".to_string(),
        vec![int4(), int4(), int4()],
        Vec::<Column>::new(),
    );
    let params = vec![
        SqlValue::Binary(vec![9]),
        SqlValue::Unconvertible("bad value".to_string()),
        SqlValue::Unconvertible("never reached".to_string()),
    ];
    let mut buf: Vec<u8> = Vec::new();
    let r = encode_bind(&stmt, &params, "", &mut buf);
    match r {
        Err(Error::ParameterConversion { index, message }) => {
            assert_eq!(index, 1);
            assert_eq!(message, "bad value");
        }
        _ => panic!("expected a conversion failure"),
    }
    assert!(buf.is_empty());
}

#[test]
fn query_batch_is_bind_execute_sync() {
    let stmt = stmt_two_params();
    let params = vec![
        SqlValue::Binary(vec![0, 0, 0, 1]),
        SqlValue::Text(b"x".to_vec()),
    ];
    let mut buf: Vec<u8> = Vec::new();
    let stream = query(stmt, &params, &mut buf).unwrap();
    assert_eq!(stream.rows_affected(), None);
    assert!(!stream.is_finished());
    let mut expected = direct_bind(
        "",
        "s7",
        vec![1, 0],
        vec![Some(vec![0, 0, 0, 1]), Some(b"x".to_vec())],
    );
    expected.extend_from_slice(&direct_execute("", 0));
    expected.extend_from_slice(&direct_sync());
    assert_eq!(buf, expected);
}

#[test]
fn adhoc_batch_is_parse_bind_describe_execute_sync() {
    let params = vec![SqlValue::Text(b"7".to_vec())];
    let types = vec![int4()];
    let mut buf: Vec<u8> = Vec::new();
    query_with_param_types("select $1", &params, &types, &mut buf).unwrap();
    let mut expected = direct_parse("", "select $1", vec![23]);
    expected.extend_from_slice(&direct_bind("", "", vec![0], vec![Some(b"7".to_vec())]));
    expected.extend_from_slice(&direct_describe_statement(""));
    expected.extend_from_slice(&direct_execute("", 0));
    expected.extend_from_slice(&direct_sync());
    assert_eq!(buf, expected);
}

#[test]
fn adhoc_count_mismatch_writes_nothing() {
    let params = vec![SqlValue::Null, SqlValue::Null];
    let types = vec![int4()];
    let mut buf: Vec<u8> = Vec::new();
    let r = query_with_param_types("select $1", &params, &types, &mut buf);
    assert!(matches!(
        r,
        Err(Error::ParameterCountMismatch { expected: 1, actual: 2 })
    ));
    assert!(buf.is_empty());
}

#[test]
fn portal_batch_is_execute_sync() {
    let stmt = Statement::new("s1".to_string(), vec![], Vec::<Column>::new());
    let portal = Portal::new("c4".to_string(), stmt);
    let mut buf: Vec<u8> = Vec::new();
    let stream = query_portal(&portal, 50, &mut buf).unwrap();
    assert_eq!(stream.rows_affected(), None);
    assert_eq!(stream.statement().name(), "s1");
    let mut expected = direct_execute("c4", 50);
    expected.extend_from_slice(&direct_sync());
    assert_eq!(buf, expected);
}

#[test]
fn close_batch_is_close_sync() {
    let mut buf: Vec<u8> = Vec::new();
    encode_close("s7", &mut buf).unwrap();
    let mut expected = direct_close_statement("s7");
    expected.extend_from_slice(&direct_sync());
    assert_eq!(buf, expected);
}

#[test]
fn close_with_embedded_nul_fails_and_writes_nothing() {
    let mut buf: Vec<u8> = Vec::new();
    let r = encode_close("s\0x", &mut buf);
    assert!(matches!(r, Err(Error::Serialization { .. })));
    assert!(buf.is_empty());
}

#[test]
fn extract_row_affected_reads_trailing_count() {
    assert_eq!(pg_exec::extract_row_affected("INSERT 0 3"), 3);
    assert_eq!(pg_exec::extract_row_affected("UPDATE 5"), 5);
    assert_eq!(pg_exec::extract_row_affected(""), 0);
    assert_eq!(pg_exec::extract_row_affected("SELECT"), 0);
    assert_eq!(pg_exec::extract_row_affected("CREATE TABLE"), 0);
    assert_eq!(pg_exec::extract_row_affected("DELETE "), 0);
    assert_eq!(
        pg_exec::extract_row_affected("UPDATE 18446744073709551615"),
        u64::MAX
    );
    assert_eq!(pg_exec::extract_row_affected("UPDATE 18446744073709551616"), 0);
    assert_eq!(pg_exec::extract_row_affected("UPDATE 1x2"), 0);
}

#[test]
fn encode_matches_the_query_batch() {
    let stmt = stmt_two_params();
    let params = vec![SqlValue::Null, SqlValue::Null];
    let mut buf: Vec<u8> = Vec::new();
    pg_exec::encode(&stmt, &params, &mut buf).unwrap();
    let mut expected = direct_bind("", "s7", vec![1, 1], vec![None, None]);
    expected.extend_from_slice(&direct_execute("", 0));
    expected.extend_from_slice(&direct_sync());
    assert_eq!(buf, expected);
}

#[test]
fn portal_with_embedded_nul_fails_and_writes_nothing() {
    let stmt = Statement::new("s".to_string(), vec![], Vec::<Column>::new());
    let portal = Portal::new("c\0".to_string(), stmt);
    let mut buf: Vec<u8> = Vec::new();
    let r = query_portal(&portal, 1, &mut buf);
    assert!(matches!(r, Err(Error::Serialization { .. })));
    assert!(buf.is_empty());
}

#[test]
fn bind_with_nul_statement_name_is_a_serialization_failure() {
    let stmt = Statement::new("s\0".to_string(), vec![int4()], Vec::<Column>::new());
    let mut buf: Vec<u8> = Vec::new();
    let r = encode_bind(&stmt, &vec![SqlValue::Null], "", &mut buf);
    assert!(matches!(r, Err(Error::Serialization { .. })));
    assert!(buf.is_empty());
}
