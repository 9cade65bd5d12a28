//! Schema-adaptive extraction of chats and messages from a message store snapshot.
//!
//! The store itself is read by the caller; this library decides which query to run,
//! turns the rows it yields into records, resolves chats by name and frames the
//! delimited-text export of chats.
pub mod model;
pub mod query;
pub mod extract;
pub mod listing;
pub mod resolve;
pub mod export;
