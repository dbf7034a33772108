use vstd::prelude::*;
use vstd::string::StringSliceAdditionalSpecFns;
use vstd::utf8::encode_utf8;

use borsh::BorshSerialize;
use chrono::Duration;

use crate::config::Config;

verus! {

/// The four bytes of `n` in little-endian order.
pub open spec fn le_u32_bytes(n: nat) -> Seq<u8> {
    seq![(n % 256) as u8, ((n / 256) % 256) as u8, ((n / 65536) % 256) as u8, ((n / 16777216) % 256) as u8]
}

/// Borsh encoding of a string: its UTF-8 length as a little-endian `u32`,
/// then its UTF-8 bytes.
pub open spec fn borsh_string(s: Seq<char>) -> Seq<u8> {
    le_u32_bytes(encode_utf8(s).len()) + encode_utf8(s)
}

/// Borsh encoding of a string by `BorshSerialize::try_to_vec` on `str`.
/// The encoding is the length prefix and the bytes; it fails only when the
/// length does not fit in a `u32`.
#[verifier::external_body]
fn borsh_encode_str(s: &str) -> (r: Option<Vec<u8>>)
    ensures
        r is Some <==> s.spec_bytes().len() <= u32::MAX,
        r matches Some(v) ==> v@ == borsh_string(s@),
{
    s.try_to_vec().ok()
}

/// The number of milliseconds in `days` days, by
/// `chrono::Duration::days(days).num_milliseconds()`, which panics only when
/// the duration is out of its bounds.
#[verifier::external_body]
fn days_as_millis(days: i64) -> (ms: i64)
    requires
        -106_751_991_167 <= days <= 106_751_991_167,
    ensures
        ms == days * 86_400_000,
{
    Duration::days(days).num_milliseconds()
}

/// Message announcing a newly created user to the queue.
pub struct NewUser {
    pub sol_address: String,
}

/// Message asking for the deletion of an account.
pub struct DeleteAccountRequest {
    pub uid: String,
}

impl NewUser {
    /// Borsh encoding of the message: the encoding of its single field.
    pub fn encode(&self) -> (bytes: Vec<u8>)
        requires
            encode_utf8(self.sol_address@).len() <= u32::MAX,
        ensures
            bytes@ == borsh_string(self.sol_address@),
    {
        borsh_encode_str(self.sol_address.as_str()).unwrap()
    }
}

impl DeleteAccountRequest {
    /// Borsh encoding of the message: the encoding of its single field.
    pub fn encode(&self) -> (bytes: Vec<u8>)
        requires
            encode_utf8(self.uid@).len() <= u32::MAX,
        ensures
            bytes@ == borsh_string(self.uid@),
    {
        borsh_encode_str(self.uid.as_str()).unwrap()
    }
}

/// Where a queue publishes its messages.
#[derive(Clone)]
pub struct QueueRoute {
    pub exchange_name: String,
    pub routing_key: String,
}

/// One message ready to be published.
pub struct Publication {
    pub exchange_name: String,
    pub routing_key: String,
    pub payload: Vec<u8>,
}

/// The settings a retrying producer is created with.
pub struct QueueSettings {
    pub rabbitmq_uri: String,
    pub exchange_name: String,
    pub queue_name: String,
    pub routing_key: String,
    pub retry_ttl: u32,
    pub delay_ms: Option<i32>,
}

impl QueueSettings {
    pub fn route(&self) -> (route: QueueRoute)
        ensures
            route.exchange_name@ == self.exchange_name@,
            route.routing_key@ == self.routing_key@,
    {
        QueueRoute { exchange_name: self.exchange_name.clone(), routing_key: self.routing_key.clone() }
    }
}

/// How long a deletion request waits before it is processed, in days.
pub const DELETE_REQUEST_DELAY_DAYS: i64 = 14;

/// The delay of the deletion-request queue in milliseconds: fourteen days.
pub fn delete_request_delay_ms() -> (ms: Option<i32>)
    ensures
        ms == Some(1_209_600_000i32),
{
    let ms = days_as_millis(DELETE_REQUEST_DELAY_DAYS);
    Some(ms as i32)
}

/// The queue that announces new users: configured entirely by the settings.
pub fn new_user_queue_settings(config: &Config) -> (s: QueueSettings)
    ensures
        s.rabbitmq_uri@ == config.rabbitmq_uri@,
        s.exchange_name@ == config.exchange_name@,
        s.queue_name@ == config.queue_name@,
        s.routing_key@ == config.routing_key@,
        s.retry_ttl == config.retry_ttl,
        s.delay_ms is None,
{
    QueueSettings {
        rabbitmq_uri: config.rabbitmq_uri.clone(),
        exchange_name: config.exchange_name.clone(),
        queue_name: config.queue_name.clone(),
        routing_key: config.routing_key.clone(),
        retry_ttl: config.retry_ttl,
        delay_ms: None,
    }
}

/// The queue of deletion requests: fixed exchange, queue and routing key,
/// the configured broker and retry time, and a delay of fourteen days.
pub fn delete_account_request_queue_settings(config: &Config) -> (s: QueueSettings)
    ensures
        s.rabbitmq_uri@ == config.rabbitmq_uri@,
        s.exchange_name@ == "delete_account_request"@,
        s.queue_name@ == "delete_account_request"@,
        s.routing_key@ == "delete_account_request.new"@,
        s.retry_ttl == config.retry_ttl,
        s.delay_ms == Some(1_209_600_000i32),
{
    QueueSettings {
        rabbitmq_uri: config.rabbitmq_uri.clone(),
        exchange_name: "delete_account_request".to_owned(),
        queue_name: "delete_account_request".to_owned(),
        routing_key: "delete_account_request.new".to_owned(),
        retry_ttl: config.retry_ttl,
        delay_ms: delete_request_delay_ms(),
    }
}

/// The publication announcing a new user with the given wallet address.
pub fn new_user_publication(route: &QueueRoute, sol_address: String) -> (p: Publication)
    requires
        encode_utf8(sol_address@).len() <= u32::MAX,
    ensures
        p.exchange_name@ == route.exchange_name@,
        p.routing_key@ == route.routing_key@,
        p.payload@ == borsh_string(sol_address@),
{
    let msg = NewUser { sol_address };
    Publication {
        exchange_name: route.exchange_name.clone(),
        routing_key: route.routing_key.clone(),
        payload: msg.encode(),
    }
}

/// The publication asking for the deletion of the account `uid`.
pub fn delete_request_publication(route: &QueueRoute, uid: String) -> (p: Publication)
    requires
        encode_utf8(uid@).len() <= u32::MAX,
    ensures
        p.exchange_name@ == route.exchange_name@,
        p.routing_key@ == route.routing_key@,
        p.payload@ == borsh_string(uid@),
{
    let msg = DeleteAccountRequest { uid };
    Publication {
        exchange_name: route.exchange_name.clone(),
        routing_key: route.routing_key.clone(),
        payload: msg.encode(),
    }
}

} // verus!
