//! Command resolution and dispatch for a small project-management command line.
//!
//! The crate turns an argument vector into one [`resolver::ResolvedCommand`] and
//! decides, step by step, what the caller has to print and which build-tool
//! invocation it has to run. Nothing here touches the process or its streams:
//! the caller performs each action and reports back what happened.

pub mod grammar;
pub mod matching;
pub mod resolver;
pub mod invocation;
pub mod dispatch;
pub mod text;
pub mod laws;
