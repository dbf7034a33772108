use vstd::prelude::*;

use crate::value::Value;

verus! {

/// Named query parameters.
pub type Params = Vec<(String, Value)>;

/// A query to run, with its parameters.
pub struct DbQuery {
    pub query: &'static str,
    pub params: Option<Params>,
}

/// A read query addressed to the database actor.
pub struct Read {
    pub query: String,
    pub params: Option<Params>,
    pub metadata: Option<Vec<(String, Value)>>,
}

/// A write query addressed to the database actor.
pub struct Write {
    pub query: String,
    pub params: Option<Params>,
    pub metadata: Option<Vec<(String, Value)>>,
}

/// The parameters of a query, as given.
pub fn create_params(params: Vec<(String, Value)>) -> (r: Option<Params>)
    ensures
        r == Some(params),
{
    Some(params)
}

/// The text of the query that reads an account.
pub open spec fn read_account_query_text() -> Seq<char> {
    "\n    MATCH (acc:Account)-[:REGISTERED]->(cke:CrossKycEmailRegistered)\n    WITH apoc.agg.maxItems(cke, cke.block_number) AS result\n    return COUNT(acc)\n  "@
}

/// The query reading the account `uid`, with `uid` as its only parameter.
pub fn read_account(uid: String) -> (q: DbQuery)
    ensures
        q.query@ == read_account_query_text(),
        q.params matches Some(ps) && ps@.len() == 1 && ps@[0].0@ == "uid"@ && ps@[0].1
            == Value::Str(uid),
{
    let query = "\n    MATCH (acc:Account)-[:REGISTERED]->(cke:CrossKycEmailRegistered)\n    WITH apoc.agg.maxItems(cke, cke.block_number) AS result\n    return COUNT(acc)\n  ";
    let mut params: Vec<(String, Value)> = Vec::new();
    params.push(("uid".to_owned(), Value::Str(uid)));
    DbQuery { query, params: create_params(params) }
}

impl Read {
    /// The read message for a query, with no extra metadata.
    pub fn new(query: &str, params: Option<Params>) -> (msg: Read)
        ensures
            msg.query@ == query@,
            msg.params == params,
            msg.metadata is None,
    {
        Read { query: query.to_owned(), params, metadata: None }
    }
}

impl Write {
    /// The write message for a query, with no extra metadata.
    pub fn new(query: &str, params: Option<Params>) -> (msg: Write)
        ensures
            msg.query@ == query@,
            msg.params == params,
            msg.metadata is None,
    {
        Write { query: query.to_owned(), params, metadata: None }
    }
}

/// The database a query runs against: the configured one, else `neo4j`.
pub open spec fn database_name(database: Option<String>) -> Seq<char> {
    match database {
        Some(d) => d@,
        None => "neo4j"@,
    }
}

/// The metadata a query is run with: the given metadata (if any) followed by
/// the entry naming the database. Being last, that entry is the one that
/// counts when the metadata is read as a map.
pub fn run_metadata(database: Option<String>, metadata: Option<Vec<(String, Value)>>) -> (m: Vec<
    (String, Value),
>)
    ensures
        m@.len() >= 1,
        m@.last().0@ == "db"@,
        m@.last().1 matches Value::Str(d) && d@ == database_name(database),
        match metadata {
            Some(given) => m@.drop_last() == given@,
            None => m@.len() == 1,
        },
{
    let db = match database {
        Some(d) => d,
        None => "neo4j".to_owned(),
    };
    let entry = ("db".to_owned(), Value::Str(db));
    match metadata {
        Some(given) => {
            let mut m = given;
            m.push(entry);
            m
        },
        None => {
            let mut m = Vec::new();
            m.push(entry);
            m
        },
    }
}

/// The greeting sent when a session opens: client name, basic scheme and the
/// credentials.
pub fn hello_metadata(username: String, password: String) -> (m: Vec<(String, String)>)
    ensures
        m@.len() == 4,
        m@[0].0@ == "user_agent"@ && m@[0].1@ == "cross-pool-consumer/1.0"@,
        m@[1].0@ == "scheme"@ && m@[1].1@ == "basic"@,
        m@[2].0@ == "principal"@ && m@[2].1@ == username@,
        m@[3].0@ == "credentials"@ && m@[3].1@ == password@,
{
    let mut m = Vec::new();
    m.push(("user_agent".to_owned(), "cross-pool-consumer/1.0".to_owned()));
    m.push(("scheme".to_owned(), "basic".to_owned()));
    m.push(("principal".to_owned(), username));
    m.push(("credentials".to_owned(), password));
    m
}

/// How many records one pull asks for.
pub const PULL_BATCH: i64 = 1000;

/// The metadata of a pull: the number of records wanted.
pub fn pull_metadata() -> (m: Vec<(String, i64)>)
    ensures
        m@.len() == 1,
        m@[0].0@ == "n"@,
        m@[0].1 == 1000,
{
    let mut m = Vec::new();
    m.push(("n".to_owned(), PULL_BATCH));
    m
}

} // verus!
