//! Backup orchestration library for a borg-style archiving tool.
//!
//! The library models the configuration (repositories, retention and
//! password options, backup source groups), the per-source
//! prepare/enumerate/cleanup lifecycle, and the decisions of the backup
//! and prune control loops.  Everything that runs an external command is
//! kept outside: the library builds the exact command strings and decides
//! what to run, a thin unverified shell executes them and feeds the
//! results back.

pub mod cmd;
pub mod engine;
pub mod folder;
pub mod lifecycle;
pub mod options;
pub mod repo;
pub mod sizes;
pub mod sources;
pub mod text;
