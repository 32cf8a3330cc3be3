//! Verified core of a terminal chat client: an append-only conversation
//! transcript opened by a fixed system message, and the session loop that
//! queues submitted lines, keeps at most one completion request in flight,
//! and turns each outcome into exactly one rendered result.

pub mod config;
pub mod history;
pub mod laws;
pub mod msg;
pub mod render;
pub mod session;
pub mod text;
