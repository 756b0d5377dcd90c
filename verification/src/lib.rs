//! Decision core of a peer-to-peer agent that keeps one directory and the
//! clipboard text in step across a small group of devices.
//!
//! The crate holds the rules: what an event from the file system, the
//! clipboard or the gossip overlay leads to, how tickets are framed as text,
//! and how the identity is loaded. Performing the resulting actions (network,
//! disk, clipboard) is the caller's part.

pub mod ids;
pub mod state;
pub mod fs_watcher;
pub mod messages;
pub mod paths;
pub mod gossip_ops;
pub mod clipboard_monitor;
pub mod tickets;
pub mod errors;
pub mod setup;
pub mod commands;
pub mod topic;
