//! Core engine of a terminal dashboard: a single application state drives a
//! per-frame layout pass, a selectable data table, a tab strip, and a
//! powerline-style status line, all fed by an input-driven event loop.
//!
//! Everything here is pure computation over plain values; the thin shell that
//! talks to the terminal, the configuration file on disk, and the operating
//! system's secret store lives outside this crate's verified core.

pub mod app_state;
pub mod cli_args;
pub mod config;
pub mod event_loop;
pub mod layout;
pub mod palette;
pub mod records;
pub mod status_line;
pub mod table;
pub mod tabs;
pub mod text;

use vstd::prelude::*;

verus! {

} // verus!
