use eutopic_api::error::{map_bolt_result_err, settle_query, BoltMessage, Error};
use eutopic_api::value::{Record, Value};

fn records() -> Vec<Record> {
    vec![Record { fields: vec![Value::Integer(1)] }, Record { fields: vec![Value::Integer(2)] }]
}

#[test]
fn error_messages() {
    assert_eq!(Error::Neo4jError("x".to_string()).message(), "Neo4j error");
    assert_eq!(Error::MailboxError("x".to_string()).message(), "Actor mailbox error");
    assert_eq!(Error::EmptyDbResult.message(), "No records found");
}

#[test]
fn success_keeps_the_records() {
    let r = map_bolt_result_err(Ok((records(), BoltMessage::Success))).ok().unwrap();
    assert_eq!(r.len(), 2);
}

#[test]
fn failure_becomes_a_database_error() {
    match map_bolt_result_err(Ok((records(), BoltMessage::Failure("Failure { code }".to_string())))) {
        Err(Error::Neo4jError(t)) => assert_eq!(t, "Failure { code }"),
        _ => panic!("expected a database error"),
    }
}

#[test]
fn other_answer_is_unknown_error() {
    match map_bolt_result_err(Ok((records(), BoltMessage::Other))) {
        Err(Error::Neo4jError(t)) => assert_eq!(t, "Unknown error"),
        _ => panic!("expected a database error"),
    }
}

#[test]
fn earlier_error_passes_through() {
    assert!(matches!(map_bolt_result_err(Err(Error::EmptyDbResult)), Err(Error::EmptyDbResult)));
}

#[test]
fn settled_query_is_flattened() {
    let r = settle_query(Ok(Ok((records(), BoltMessage::Success)))).ok().unwrap();
    assert_eq!(r.0.len(), 2);
    assert!(matches!(r.0[1], Value::Integer(2)));
}

#[test]
fn undelivered_query_is_a_mailbox_error() {
    match settle_query(Err("Timeout".to_string())) {
        Err(Error::MailboxError(t)) => assert_eq!(t, "Timeout"),
        _ => panic!("expected a mailbox error"),
    }
    match settle_query(Ok(Ok((records(), BoltMessage::Other)))) {
        Err(Error::Neo4jError(t)) => assert_eq!(t, "Unknown error"),
        _ => panic!("expected a database error"),
    }
    assert!(matches!(settle_query(Ok(Err(Error::EmptyDbResult))), Err(Error::EmptyDbResult)));
}
