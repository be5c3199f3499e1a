//! A minimal client library for a chat-completion HTTP API.
//!
//! The library keeps a running conversation, builds the JSON request
//! body for each turn, and decodes the structured response.  The HTTP
//! transport itself is left to the embedding application: the client is
//! split into a request-building half and a response-handling half, so
//! that everything between the two (the wire format, the error
//! taxonomy, the transcript bookkeeping) is stated and checked here.

pub mod client;
pub mod config;
pub mod decimal;
pub mod encode;
pub mod error;
pub mod parse;
pub mod request;
pub mod types;

pub use client::OpenAIClient;
pub use config::OpenAIConfig;
pub use config::OpenAIConfigBuilder;
pub use decimal::Decimal;
pub use error::APIError;
pub use error::Error;
pub use parse::parse_completion;

pub use types::ChatModel;
pub use types::Message;
pub use types::Role;
