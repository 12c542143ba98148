//! Calls on remote objects: the rules by which one side of a connection keeps
//! track of questions, answers, exports and imports.

pub mod answer;
pub mod calls;
pub mod caps;
pub mod channel;
pub mod client;
pub mod connection;
pub mod context;
pub mod encode;
pub mod fault;
pub mod laws;
pub mod layout;
pub mod local;
pub mod message;
pub mod node;
pub mod operations;
pub mod question;
pub mod reader;
pub mod runtime;
pub mod schema;
pub mod tables;
