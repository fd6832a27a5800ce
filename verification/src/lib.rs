//! A client core for the control API that the Firecracker microVM manager
//! serves over a Unix domain socket.
//!
//! The crate holds everything that decides: which verb and path an operation
//! uses, how identifiers are escaped inside a path, which headers and body a
//! request carries, and how a status code and a response body become a typed
//! result or a structured error. Moving bytes over the socket is left to the
//! embedding program.

pub mod api;
pub mod codec;
pub mod escape;
pub mod json;
pub mod models;

pub use api::client::MicrovmClient;
pub use api::error::ApiError;
pub use api::error::Error;
pub use api::request::Call;
pub use api::request::Request;
