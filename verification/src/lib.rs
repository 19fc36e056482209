//! Operational logic of the `s2` fleet command line: service registry lookups,
//! smoke-check verdicts, verify planning, worktree command construction and the
//! text layout of its tables, each stated and proved with Verus.

pub mod calls;
pub mod checks;
pub mod fleet;
pub mod health;
pub mod json;
pub mod locate;
pub mod plan;
pub mod text;
pub mod worktree;
