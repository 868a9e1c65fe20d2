//! Tool dispatch and validation for a vector-store tool server.
//!
//! A call names an operation and carries a JSON payload. [`dispatch::dispatch`]
//! routes it: the payload is decoded into the operation's request
//! ([`requests`]), the request is checked against the operation's rules and
//! handed to the backend client ([`tools`], [`thought`], [`client`]), and the
//! outcome comes back as a JSON value or a [`error::DispatchError`]. The
//! catalog that a server advertises ([`registry`]) lists, for each operation,
//! exactly the fields its decoder reads.

pub mod json;
pub mod decode;
pub mod requests;
pub mod text;
pub mod config;
pub mod client;
pub mod error;
pub mod thought;
pub mod tools;
pub mod dispatch;
pub mod registry;
