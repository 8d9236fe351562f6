//! A small client for a public machine-translation endpoint: it builds the
//! request URL, picks a browser identity for the request, and decodes the
//! endpoint's positional JSON answer into a detected language and segments.
//! The decisions of the command line around it live in `flow`.

pub mod client;
pub mod encoding;
pub mod flow;
pub mod response;

pub use client::Translate;
pub use flow::CliError;
pub use response::{Json, TranslateError};
