//! Keyspace synchronization engine for an interactive browser of a remote
//! key-value store.
//!
//! The engine owns the parts of the browser that carry real invariants:
//! cursor-based pagination with a history stack, positional join of
//! concurrently fetched per-key metadata, the `key:value` grammar of the
//! server's info reply, the mode-scoped multi-key keybinding resolver, and
//! the state transitions driven by actions and fetch outcomes.  Terminal
//! rendering, the network client and task scheduling live outside and talk
//! to the engine through plain values.


pub mod action;
pub mod app;
pub mod command;
pub mod config;
pub mod errors;
pub mod event;
pub mod info;
pub mod keybindings;
pub mod keyspace;
pub mod mappings;
pub mod mode;
pub mod state;
pub mod storage;
pub mod tabs;
pub mod termination;
pub mod text;
pub mod types;
