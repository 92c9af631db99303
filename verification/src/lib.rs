//! The core of a small HTTP/1.1 server: it parses the bytes of a request,
//! routes the request by method and path, and builds the bytes of the
//! response, with the length of the body in its `Content-Length` field.
//!
//! The library does no input or output. The program around it reads the
//! socket and the files, decodes JSON, computes on floating-point numbers and
//! writes to the store; `connection` says, step by step, what it is to do, and
//! takes what came of it.
//!
//! - `text`, `decimal`: character sequences and numerals, the vocabulary of
//!   the contracts.
//! - `headers`: the header map.
//! - `request`: the wire parser.
//! - `server`: methods, routes, assets, and the response builder.
//! - `wire`: the text of a response.
//! - `response_message`, `error_handle`: status codes and complete messages.
//! - `handlers`: the answers of the handlers.
//! - `connection`: one connection as a state machine.
//! - `laws`: what holds of all of these together.

pub mod connection;
pub mod decimal;
pub mod error_handle;
pub mod handlers;
pub mod headers;
pub mod laws;
pub mod request;
pub mod response_message;
pub mod server;
pub mod text;
pub mod wire;
