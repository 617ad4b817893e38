//! Twilight Bark: the verified core of an agent communication fabric.
pub mod strings;
pub mod json;
pub mod proto;
pub mod sources;
pub mod registry;
pub mod paths;
pub mod identity;
pub mod bus;
pub mod envelope;
pub mod tasks;
pub mod ipc;
pub mod ziti;
pub mod config;
pub mod frontmatter;
pub mod adapters;
pub mod client;
pub mod eventlog;
pub mod console;
