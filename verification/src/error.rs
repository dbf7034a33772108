use vstd::prelude::*;

use crate::value::{flatten_records, Neo4jResult, Record};

verus! {

/// Errors raised by the database layer.
pub enum Error {
    Neo4jError(String),
    MailboxError(String),
    EmptyDbResult,
}

/// What the database answered after the records of a query were pulled.
/// A failure carries the debug rendering of the failure message.
pub enum BoltMessage {
    Success,
    Failure(String),
    Other,
}

impl Error {
    /// The human readable message of each error.
    pub open spec fn spec_message(&self) -> Seq<char> {
        match self {
            Error::Neo4jError(_) => "Neo4j error"@,
            Error::MailboxError(_) => "Actor mailbox error"@,
            Error::EmptyDbResult => "No records found"@,
        }
    }

    pub fn message(&self) -> (m: String)
        ensures
            m@ == self.spec_message(),
    {
        match self {
            Error::Neo4jError(_) => "Neo4j error".to_owned(),
            Error::MailboxError(_) => "Actor mailbox error".to_owned(),
            Error::EmptyDbResult => "No records found".to_owned(),
        }
    }
}


/// Keeps the records of a query whose final answer is a success; a failure
/// answer becomes a database error carrying the failure's rendering, and any
/// other answer a database error reading `Unknown error`. An error that
/// happened earlier is passed on unchanged.
pub fn map_bolt_result_err(result: Result<(Vec<Record>, BoltMessage), Error>) -> (r: Result<
    Vec<Record>,
    Error,
>)
    ensures
        match result {
            Err(e) => r == Err::<Vec<Record>, Error>(e),
            Ok((records, BoltMessage::Success)) => r == Ok::<Vec<Record>, Error>(records),
            Ok((_, BoltMessage::Failure(text))) => r == Err::<Vec<Record>, Error>(
                Error::Neo4jError(text),
            ),
            Ok((_, BoltMessage::Other)) => r matches Err(Error::Neo4jError(t)) && t@
                == "Unknown error"@,
        },
{
    match result {
        Err(e) => Err(e),
        Ok((records, response)) => match response {
            BoltMessage::Success => Ok(records),
            BoltMessage::Failure(text) => Err(Error::Neo4jError(text)),
            BoltMessage::Other => Err(Error::Neo4jError("Unknown error".to_owned())),
        },
    }
}

/// Settles a query sent to the database actor: a failure to deliver the
/// message becomes a mailbox error carrying its rendering; otherwise the
/// answer is checked as `map_bolt_result_err` does and the records are
/// flattened into one list of values.
pub fn settle_query(outcome: Result<Result<(Vec<Record>, BoltMessage), Error>, String>) -> (r:
    Result<Neo4jResult, Error>)
    ensures
        match outcome {
            Err(m) => r == Err::<Neo4jResult, Error>(Error::MailboxError(m)),
            Ok(Err(e)) => r == Err::<Neo4jResult, Error>(e),
            Ok(Ok((records, BoltMessage::Success))) => r matches Ok(res) && res.0@
                == flatten_records(records@),
            Ok(Ok((_, BoltMessage::Failure(text)))) => r == Err::<Neo4jResult, Error>(
                Error::Neo4jError(text),
            ),
            Ok(Ok((_, BoltMessage::Other))) => r matches Err(Error::Neo4jError(t)) && t@
                == "Unknown error"@,
        },
{
    match outcome {
        Err(m) => Err(Error::MailboxError(m)),
        Ok(answer) => match map_bolt_result_err(answer) {
            Ok(records) => Ok(Neo4jResult::from(records)),
            Err(e) => Err(e),
        },
    }
}

} // verus!
