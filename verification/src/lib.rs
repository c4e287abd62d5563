//! A dual-mode source rewriter: one logical API, projected into a blocking
//! ("sync") variant and a suspending ("async") variant.
//!
//! The engine classifies one top-level declaration into one of five shapes,
//! then projects it: the suspension rewriter strips suspension machinery
//! (await expressions, async blocks, `_async` call suffixes, `Future`-bounded
//! generics), the suspension injector adds it, and the orchestrator applies
//! both per declaration kind while keeping the coexisting variants free of
//! name collisions.

pub mod ast;
pub mod classify;
pub mod client;
pub mod convert;
pub mod model;
pub mod modes;
pub mod suffix;
pub mod visit;
