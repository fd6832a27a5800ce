//! Requests, responses and errors of the control API.

pub mod client;
pub mod endpoint;
pub mod error;
pub mod request;
pub mod uri;
