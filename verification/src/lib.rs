//! Orchestration layer of a desktop file-analysis application.
//!
//! The library contains the verified core of the orchestration subsystem:
//! progress normalization, result collation, bulk file-operation planning
//! and outcome aggregation, cancellation and one-shot setup state, and the
//! per-tool job state registry. The scan engine itself, the UI, and all
//! filesystem and thread plumbing live outside the library and talk to it
//! through plain values.

use vstd::prelude::*;

pub mod progress;
pub mod text;
pub mod tools;
pub mod paths;
pub mod outcome;
pub mod delete_files;
pub mod move_files;
pub mod rename_ext;
pub mod collate;
pub mod state;
pub mod save_result;
pub mod scaner;
pub mod utils;
pub mod settings;
pub mod image;
pub mod fsmodel;
