//! Workflow automation for repository and container-stack maintenance.
//!
//! The library plans and validates the ordered command sequences that the
//! surrounding binary executes: it maps a (target, action) request to the
//! fixed catalog of steps, resolves the remote's default branch from captured
//! command output, and classifies every failure that can cut a run short.

pub mod dispatch;
pub mod entities;
pub mod parser;
pub mod resolver;

