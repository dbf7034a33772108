use vstd::prelude::*;

use crate::error::Error;
use crate::value::{renders_all, Json, Neo4jResult};

verus! {

/// The body of a reply.
pub enum ReplyBody {
    /// No body at all.
    Empty,
    /// A plain text body.
    Text(String),
    /// A JSON document.
    Json(Json),
}

/// An HTTP reply: status code, optional reason phrase and body.
pub struct HttpReply {
    pub status: u16,
    pub reason: Option<String>,
    pub body: ReplyBody,
}

/// Status 500, reason `500`, an empty text body.
pub open spec fn is_internal_server_error(r: HttpReply) -> bool {
    &&& r.status == 500
    &&& r.reason matches Some(t) && t@ == "500"@
    &&& r.body matches ReplyBody::Text(b) && b@.len() == 0
}

/// The reply to a request that failed on the server's side: status 500,
/// reason `500`, an empty text body. The error itself is not disclosed.
pub fn internal_server_error(error: Option<Error>) -> (r: HttpReply)
    ensures
        is_internal_server_error(r),
{
    HttpReply { status: 500, reason: Some("500".to_owned()), body: ReplyBody::Text(String::new()) }
}

/// The reply to an unauthenticated request: status 401, reason `401`, no body.
pub fn unauthorized_error() -> (r: HttpReply)
    ensures
        r.status == 401,
        r.reason matches Some(t) && t@ == "401"@,
        r.body is Empty,
{
    HttpReply { status: 401, reason: Some("401".to_owned()), body: ReplyBody::Empty }
}

/// Paging parameters of a listing request.
pub trait QueryStringTrait {
    fn skip(&self) -> Option<u32>;

    fn limit(&self) -> Option<u32>;
}

/// The query string of a listing request.
pub struct QueryString {
    pub skip: Option<u32>,
    pub limit: Option<u32>,
}

impl QueryStringTrait for QueryString {
    fn skip(&self) -> (s: Option<u32>)
        ensures
            s == self.skip,
    {
        self.skip
    }

    fn limit(&self) -> (l: Option<u32>)
        ensures
            l == self.limit,
    {
        self.limit
    }
}

/// How many items a listing skips when none is asked for.
pub const DEFAULT_SKIP: u32 = 0;

/// How many items a listing returns at most when no limit is asked for.
pub const DEFAULT_LIMIT: u32 = 100;

/// The listing of a read query with its paging parameters.
pub struct BaseResponse {
    pub count: usize,
    pub skip: Option<u32>,
    pub limit: Option<u32>,
    pub result: Neo4jResult,
}

/// The result of a read query on its own.
pub struct Neo4jBaseResponse {
    pub result: Neo4jResult,
}

/// JSON for an optional count: the number, or null.
pub open spec fn optional_count_json(v: Option<u32>) -> Json {
    match v {
        Some(n) => Json::UInt(n as u64),
        None => Json::Null,
    }
}

fn optional_count(v: Option<u32>) -> (j: Json)
    ensures
        j == optional_count_json(v),
{
    match v {
        Some(n) => Json::UInt(n as u64),
        None => Json::Null,
    }
}

impl BaseResponse {
    /// `{"count": .., "skip": .., "limit": .., "result": [..]}`, fields in this order.
    pub fn to_json(&self) -> (j: Json)
        ensures
            j matches Json::Object(fields) && fields@.len() == 4 && fields@[0].0@ == "count"@
                && fields@[0].1 == Json::UInt(self.count as u64) && fields@[1].0@ == "skip"@
                && fields@[1].1 == optional_count_json(self.skip) && fields@[2].0@ == "limit"@
                && fields@[2].1 == optional_count_json(self.limit) && fields@[3].0@ == "result"@
                && renders_all(self.result.0@, fields@[3].1),
    {
        let mut fields: Vec<(String, Json)> = Vec::new();
        fields.push(("count".to_owned(), Json::UInt(self.count as u64)));
        fields.push(("skip".to_owned(), optional_count(self.skip)));
        fields.push(("limit".to_owned(), optional_count(self.limit)));
        fields.push(("result".to_owned(), self.result.to_json()));
        Json::Object(fields)
    }
}

impl Neo4jBaseResponse {
    /// `{"result": [..]}`.
    pub fn to_json(&self) -> (j: Json)
        ensures
            j matches Json::Object(fields) && fields@.len() == 1 && fields@[0].0@ == "result"@
                && renders_all(self.result.0@, fields@[0].1),
    {
        let mut fields: Vec<(String, Json)> = Vec::new();
        fields.push(("result".to_owned(), self.result.to_json()));
        Json::Object(fields)
    }
}

/// The reply of a paged read: on success, status 200 with the listing, whose
/// count is the number of values and whose paging parameters are the ones
/// asked for, or 0 and 100 when absent; on failure, an internal server error.
pub fn read_endpoint_reply(skip: Option<u32>, limit: Option<u32>, result: Result<Neo4jResult, Error>)
    -> (r: HttpReply)
    ensures
        match result {
            Ok(values) => r.status == 200 && r.reason is None && (r.body matches ReplyBody::Json(
                Json::Object(fields),
            ) && fields@.len() == 4 && fields@[0].0@ == "count"@ && fields@[0].1 == Json::UInt(
                values.0@.len() as u64,
            ) && fields@[1].0@ == "skip"@ && fields@[1].1 == Json::UInt(
                match skip {
                    Some(n) => n,
                    None => 0,
                } as u64,
            ) && fields@[2].0@ == "limit"@ && fields@[2].1 == Json::UInt(
                match limit {
                    Some(n) => n,
                    None => 100,
                } as u64,
            ) && fields@[3].0@ == "result"@ && renders_all(values.0@, fields@[3].1)),
            Err(_) => is_internal_server_error(r),
        },
{
    let skip = match skip {
        Some(n) => n,
        None => DEFAULT_SKIP,
    };
    let limit = match limit {
        Some(n) => n,
        None => DEFAULT_LIMIT,
    };
    match result {
        Ok(values) => {
            let response = BaseResponse {
                count: values.0.len(),
                result: values,
                skip: Some(skip),
                limit: Some(limit),
            };
            HttpReply { status: 200, reason: None, body: ReplyBody::Json(response.to_json()) }
        },
        Err(error) => internal_server_error(Some(error)),
    }
}

/// The reply of an unpaged read: on success, status 200 with `{"result": [..]}`;
/// on failure, an internal server error.
pub fn read_endpoint_reply_no_qs(result: Result<Neo4jResult, Error>) -> (r: HttpReply)
    ensures
        match result {
            Ok(values) => r.status == 200 && r.reason is None && (r.body matches ReplyBody::Json(
                Json::Object(fields),
            ) && fields@.len() == 1 && fields@[0].0@ == "result"@ && renders_all(
                values.0@,
                fields@[0].1,
            )),
            Err(_) => is_internal_server_error(r),
        },
{
    match result {
        Ok(values) => {
            let response = Neo4jBaseResponse { result: values };
            HttpReply { status: 200, reason: None, body: ReplyBody::Json(response.to_json()) }
        },
        Err(error) => internal_server_error(Some(error)),
    }
}

/// The reply of a write: status 200 with no body on success, an internal
/// server error on failure.
pub fn write_endpoint_reply(result: Result<Neo4jResult, Error>) -> (r: HttpReply)
    ensures
        match result {
            Ok(_) => r.status == 200 && r.reason is None && r.body is Empty,
            Err(_) => is_internal_server_error(r),
        },
{
    match result {
        Ok(_) => HttpReply { status: 200, reason: None, body: ReplyBody::Empty },
        Err(error) => internal_server_error(Some(error)),
    }
}

} // verus!
