//! Verified core of the account API: the decisions, encodings and
//! data-shaping logic that sit between the HTTP edge, the graph database
//! and the message queue.

pub mod account;
pub mod auth;
pub mod config;
pub mod db;
pub mod endpoints;
pub mod error;
pub mod http;
pub mod queue;
pub mod text;
pub mod value;
