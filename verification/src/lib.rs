//! A self-updating application launcher library.
//!
//! The launcher checks for a newer release artifact, downloads and extracts
//! it, atomically replaces the installed tree, and supervises the installed
//! binary as a child process. This crate holds the verified core: the
//! resumable retry-driven download bookkeeping, the atomic install-swap
//! protocol with its fallback, the update decision, the supervision state
//! machine, and the persistent-state text codec. Process, network and
//! filesystem work is driven by a thin unverified shell around this crate.

pub mod apt;
pub mod args;
pub mod config;
pub mod config_file;
pub mod install;
pub mod paths;
pub mod pkg;
pub mod state;
pub mod supervisor;
pub mod text;
pub mod update;

pub use state::State;
