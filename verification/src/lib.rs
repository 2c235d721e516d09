//! Verified core of an MCP server that drives the Xojo IDE: the JSON-RPC
//! request handling, the tool catalogue and its argument rules, the IDE
//! connection's framing and retry decisions, and the text formatting of
//! IDE replies.

pub mod catalog;
pub mod communicator;
pub mod docs;
pub mod json;
pub mod protocol;
pub mod runs;
pub mod scripts;
pub mod server;
pub mod settings;
pub mod text;
pub mod tool;
