//! Ingestion and normalisation of a live chat stream: session bootstrap from a
//! watch page, continuation polling decisions, and the mapping of the four
//! renderer payload shapes into one `ChatItem` model.

pub mod color;
pub mod item;
pub mod youtube_types;
pub mod parser;
pub mod error;
pub mod request;
pub mod live_chat;
