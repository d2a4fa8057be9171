//! A signature-verification endpoint, without the network: the request handler,
//! the error taxonomy, and the dispatcher that turns every failure into a
//! protocol-level response.

pub mod checker;
pub mod codec;
pub mod dispatch;
pub mod error;
pub mod handler;
pub mod route;
pub mod service;
pub mod structs;

pub use checker::{Checker, VerificationOutcome};
pub use dispatch::{classify, dispatch, respond, Body, Diagnostic, Reply, Response, Rule};
pub use error::{ClassifiedError, ErrorKind, VerificationFailure};
pub use handler::{conclude, decode_request, handle, DecodedRequest};
pub use route::{route, Endpoint};
pub use service::{begin, finish, serve, Step};
pub use structs::{SignedData, StringBytes, TimestampedData};
