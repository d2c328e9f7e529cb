//! Verified core of a documentation live-preview tool.
//!
//! The tool watches a workspace, reruns the documentation build when a
//! relevant file changes, and tells connected viewers to reload the page.
//! This crate holds the decision logic — which paths are ignored, when a
//! build is (re)started, when viewers are notified, and how a reload script
//! is appended to streamed HTML bodies — with machine-checked contracts.
//! Process spawning, the HTTP server and the filesystem watcher live in the
//! surrounding binary, which drives this crate's state machines.

pub mod engine;
pub mod events;
pub mod filter;
pub mod inject;
pub mod orchestrator;
pub mod reload;
pub mod startup;
pub mod supervisor;
