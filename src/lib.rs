//! Protocol client for inspecting an agent that speaks JSON-RPC over its
//! standard input and output: the message model, the connection state
//! machine with request correlation, and the data models around them.

pub mod json;
pub mod message;
pub mod transport;
pub mod error;
pub mod agent;
pub mod connection;
pub mod session;
pub mod laws;
pub mod chat;
pub mod settings;
pub mod queue;
