//! A connector driver for the Qdrant vector database.
//!
//! The library decides: it reads a connection profile, plans the HTTP requests,
//! interprets the answers, keeps the open connections and words the replies. It
//! neither opens files nor talks to a server. Where it needs a file or an answer
//! it says so, and is resumed with what came.

pub mod answer;
pub mod config;
pub mod connection;
pub mod connections;
pub mod driver;
pub mod json;
pub mod metadata;
pub mod opening;
pub mod options;
pub mod percent;
pub mod query;
pub mod text;
pub mod tls;
