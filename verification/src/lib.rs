//! Environment resolution and orchestration for Python projects.
//!
//! The crate locates or creates isolated Python environments, plans the
//! external commands needed to provision and run tools inside them, and
//! aggregates the outcome of best-effort filesystem cleanup.  All decision
//! logic is verified; the actual spawning of external processes and the
//! deletion of files are performed by a thin unverified shell that drives
//! the plans produced here.

pub mod clean;
pub mod command;
pub mod dispatch;
pub mod error;
pub mod package;
pub mod paths;
mod probe;
pub mod venv;
