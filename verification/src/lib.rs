//! Protocol and session core of a client for a queue-based remote inference
//! service: application-reference resolution, wake-up polling, capability
//! negotiation, input marshaling, queue submission, event-stream message
//! handling and output decoding.
//!
//! All network transport lives outside this crate; the functions here take
//! the observed responses and events as plain values and decide what they
//! mean and what to do next.

pub mod client;
pub mod data;
pub mod error;
pub mod ids;
pub mod json;
pub mod resolve;
pub mod space;
pub mod stream;
pub mod structs;
pub mod strutil;

pub use client::Client;
pub use client::ClientOptions;
pub use error::GradioError;
pub use json::JsonValue;
pub use stream::PredictionStream;
pub use data::PredictionInput;
pub use data::PredictionOutput;
pub use data::GradioFileData;
pub use data::GradioFileDataMeta;
