//! Core logic of a documentation sync bot: it watches pull-request webhook
//! events, and when a merged pull request carries a configured label, plans a
//! cherry-pick of the files under a configured source directory onto a fresh
//! branch, to be committed, pushed, and followed by a new pull request.
//!
//! Everything here is pure decision logic over plain values; the surrounding
//! binary performs the HTTP, git, and filesystem work that these functions
//! plan and check.

pub mod config;
pub mod diff;
pub mod git;
pub mod handlers;
pub mod github;
pub mod paths;
pub mod interactions;
pub mod ratelimit;
pub mod webhook;
pub mod strutil;
