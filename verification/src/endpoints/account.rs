//! The account endpoints.

pub mod cancel_account_deletion;
pub mod create_account;
pub mod flow;
pub mod get_account;
pub mod request_account_deletion;
