use eutopic_api::account::Account;
use eutopic_api::db::{create_params, hello_metadata, pull_metadata, read_account, run_metadata, Read, Write};
use eutopic_api::value::{Neo4jResult, Value};

fn dict(entries: Vec<(&str, Value)>) -> Neo4jResult {
    Neo4jResult(vec![Value::Dict(entries.into_iter().map(|(k, v)| (k.to_string(), v)).collect())])
}

#[test]
fn account_reads_back_from_dictionary() {
    let r = dict(vec![("uid", Value::Str("u1".into())), ("mnemonic", Value::Str("m1".into()))]);
    assert!(Account::can_read(&r));
    let a = Account::try_from(r).ok().unwrap();
    assert_eq!(a.uid, "u1");
    assert_eq!(a.mnemonic, "m1");
    let r = dict(vec![("mnemonic", Value::Str("m2".into())), ("uid", Value::Str("u2".into()))]);
    let a = Account::try_from(r).ok().unwrap();
    assert_eq!(a.uid, "u2");
    assert_eq!(a.mnemonic, "m2");
}

#[test]
fn missing_fields_stay_empty() {
    let r = dict(vec![("uid", Value::Str("only".into()))]);
    let a = Account::try_from(r).ok().unwrap();
    assert_eq!(a.uid, "only");
    assert_eq!(a.mnemonic, "");
    let a = Account::try_from(dict(vec![])).ok().unwrap();
    assert_eq!(a.uid, "");
}

#[test]
fn unreadable_results_are_recognised() {
    assert!(!Account::can_read(&Neo4jResult(vec![])));
    assert!(!Account::can_read(&Neo4jResult(vec![Value::Integer(1)])));
    assert!(!Account::can_read(&dict(vec![("name", Value::Str("x".into()))])));
    assert!(!Account::can_read(&dict(vec![("uid", Value::Integer(1))])));
}

#[test]
fn account_query_and_parameters() {
    let q = read_account("u9".to_string());
    assert!(q.query.contains("MATCH (acc:Account)-[:REGISTERED]->(cke:CrossKycEmailRegistered)"));
    assert!(q.query.contains("return COUNT(acc)"));
    let ps = q.params.unwrap();
    assert_eq!(ps.len(), 1);
    assert_eq!(ps[0].0, "uid");
    assert!(matches!(&ps[0].1, Value::Str(s) if s == "u9"));
    assert_eq!(create_params(vec![]).map(|p| p.len()), Some(0));
}

#[test]
fn messages_to_the_database_actor() {
    let r = Read::new("MATCH (n) RETURN n", None);
    assert_eq!(r.query, "MATCH (n) RETURN n");
    assert!(r.params.is_none() && r.metadata.is_none());
    let w = Write::new("CREATE (n)", Some(vec![("a".to_string(), Value::Integer(1))]));
    assert_eq!(w.query, "CREATE (n)");
    assert_eq!(w.params.unwrap().len(), 1);
    assert!(w.metadata.is_none());
}

#[test]
fn run_metadata_names_the_database_last() {
    let m = run_metadata(None, None);
    assert_eq!(m.len(), 1);
    assert_eq!(m[0].0, "db");
    assert!(matches!(&m[0].1, Value::Str(s) if s == "neo4j"));
    let m = run_metadata(Some("accounts".to_string()), Some(vec![("db".to_string(), Value::Str("old".into())), ("tx".to_string(), Value::Integer(1))]));
    assert_eq!(m.len(), 3);
    assert_eq!(m[0].0, "db");
    assert_eq!(m[1].0, "tx");
    assert_eq!(m[2].0, "db");
    assert!(matches!(&m[2].1, Value::Str(s) if s == "accounts"));
}

#[test]
fn session_and_pull_metadata() {
    let h = hello_metadata("neo".to_string(), "pw".to_string());
    let pairs: Vec<(&str, &str)> = h.iter().map(|(k, v)| (k.as_str(), v.as_str())).collect();
    assert_eq!(
        pairs,
        vec![("user_agent", "cross-pool-consumer/1.0"), ("scheme", "basic"), ("principal", "neo"), ("credentials", "pw")]
    );
    let p = pull_metadata();
    assert_eq!(p, vec![("n".to_string(), 1000)]);
}
