//! Normalization of coding-agent log output into structured conversation
//! records: classification of free-text lines into a closed set of entry
//! kinds, extraction of tool-invocation payloads, and path relativization
//! against a worktree root.

pub mod classify;
pub mod entry;
pub mod executor;
pub mod extract;
pub mod invocation;
pub mod normalize;
pub mod path;
pub mod text;
