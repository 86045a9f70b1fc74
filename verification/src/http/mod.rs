//! The HTTP API's request and response bodies and the decisions of its
//! handlers: account login and registration, and the bulk world downloads.
pub mod auth;
pub mod bulk;
