//! Verified core of the proton radiography tracer: deck override keys and
//! deck checks, parameter sweeps, run-directory layout, command-line parsing
//! of every mode, binary count and grid formats, Morton ordering of
//! particles, and the small text utilities they rest on.

pub mod text;
pub mod overrides;
pub mod gui;
pub mod config;
pub mod run_dir;
pub mod cli;
pub mod commands;
pub mod render_args;
pub mod sweep;
pub mod counts;
pub mod grids;
pub mod inspect;
pub mod particles;
pub mod digest;
pub mod materials;
pub mod source_plan;
