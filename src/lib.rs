//! HTTP error kinds and the status, body and log record each one turns into.
pub mod reject;

pub use reject::{ErrorResponse, HTTPError, HTTPErrorView};
