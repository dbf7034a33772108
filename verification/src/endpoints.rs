//! Request handlers, each written as a machine that says what to do next.

pub mod account;
