use eutopic_api::error::Error;
use eutopic_api::http::{
    internal_server_error, read_endpoint_reply, read_endpoint_reply_no_qs, unauthorized_error,
    write_endpoint_reply, BaseResponse, HttpReply, QueryString, QueryStringTrait, ReplyBody,
};
use eutopic_api::value::{Json, Neo4jResult, Value};

fn object(r: &HttpReply) -> &Vec<(String, Json)> {
    match &r.body {
        ReplyBody::Json(Json::Object(fields)) => fields,
        _ => panic!("not a JSON object"),
    }
}

fn is_500(r: &HttpReply) -> bool {
    r.status == 500 && r.reason.as_deref() == Some("500") && matches!(&r.body, ReplyBody::Text(t) if t.is_empty())
}

#[test]
fn canned_replies() {
    assert!(is_500(&internal_server_error(None)));
    assert!(is_500(&internal_server_error(Some(Error::EmptyDbResult))));
    let u = unauthorized_error();
    assert_eq!(u.status, 401);
    assert_eq!(u.reason.as_deref(), Some("401"));
    assert!(matches!(u.body, ReplyBody::Empty));
}

#[test]
fn query_string_gives_its_fields() {
    let qs = QueryString { skip: Some(3), limit: None };
    assert_eq!(qs.skip(), Some(3));
    assert_eq!(qs.limit(), None);
}

#[test]
fn paged_read_uses_defaults() {
    let r = read_endpoint_reply(None, None, Ok(Neo4jResult(vec![Value::Integer(5), Value::Integer(6)])));
    assert_eq!(r.status, 200);
    assert!(r.reason.is_none());
    let f = object(&r);
    assert_eq!(f.len(), 4);
    assert_eq!(f[0].0, "count");
    assert!(matches!(f[0].1, Json::UInt(2)));
    assert_eq!(f[1].0, "skip");
    assert!(matches!(f[1].1, Json::UInt(0)));
    assert_eq!(f[2].0, "limit");
    assert!(matches!(f[2].1, Json::UInt(100)));
    assert_eq!(f[3].0, "result");
    assert!(matches!(&f[3].1, Json::Array(items) if items.len() == 2));
}

#[test]
fn paged_read_echoes_given_paging() {
    let r = read_endpoint_reply(Some(10), Some(5), Ok(Neo4jResult(vec![])));
    let f = object(&r);
    assert!(matches!(f[0].1, Json::UInt(0)));
    assert!(matches!(f[1].1, Json::UInt(10)));
    assert!(matches!(f[2].1, Json::UInt(5)));
}

#[test]
fn failed_reads_and_writes_are_server_errors() {
    assert!(is_500(&read_endpoint_reply(None, None, Err(Error::EmptyDbResult))));
    assert!(is_500(&read_endpoint_reply_no_qs(Err(Error::MailboxError("m".to_string())))));
    assert!(is_500(&write_endpoint_reply(Err(Error::Neo4jError("n".to_string())))));
}

#[test]
fn unpaged_read_and_write() {
    let r = read_endpoint_reply_no_qs(Ok(Neo4jResult(vec![Value::Boolean(true)])));
    assert_eq!(r.status, 200);
    let f = object(&r);
    assert_eq!(f.len(), 1);
    assert_eq!(f[0].0, "result");
    let w = write_endpoint_reply(Ok(Neo4jResult(vec![])));
    assert_eq!(w.status, 200);
    assert!(matches!(w.body, ReplyBody::Empty));
}

#[test]
fn base_response_nulls_absent_paging() {
    let b = BaseResponse { count: 0, skip: None, limit: Some(1), result: Neo4jResult(vec![]) };
    match b.to_json() {
        Json::Object(f) => {
            assert!(matches!(f[1].1, Json::Null));
            assert!(matches!(f[2].1, Json::UInt(1)));
        }
        _ => panic!("not an object"),
    }
}
