//! A small client for the Matrix client-server API: it builds the HTTP
//! requests of each endpoint and reads the answers of the homeserver.
pub mod error;
pub mod client;
pub mod http;
pub mod json;
pub mod text;

pub use client::Client;
pub use error::RixError;
