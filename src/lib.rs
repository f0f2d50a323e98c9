//! Verified core of a local media-control backend: script invocation and
//! outcome classification, JSON-RPC envelopes and replies, and similar-track
//! discovery over a remote media library.

pub mod config;
pub mod discover;
pub mod error;
pub mod handlers;
pub mod json;
pub mod models;
pub mod rpc;
pub mod scripts;
pub mod text;
pub mod validation;

pub use error::AppError;
pub use models::AudioMode;
