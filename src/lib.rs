//! A small client for the Bugsnag error-reporting API.
//!
//! The library builds the request that reports one event (endpoint, headers and
//! JSON body) and decides what a delivery attempt means for the caller. Sending
//! the request over the network is left to the caller.
pub mod client;
pub mod error;
pub mod payload;
pub mod severity;

pub use client::{Client, Header, Request, RequestView, request_for};
pub use error::{BugsnagError, delivery_result};
pub use payload::{build_payload, payload};
pub use severity::{SeverityLevel, severity_name};
