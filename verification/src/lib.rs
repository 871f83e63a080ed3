//! Verified core of the Aura Update system health centre.
use vstd::prelude::*;

pub mod ai;
pub mod browsers;
pub mod cleanup;
pub mod config;
pub mod cooling;
pub mod desktop;
pub mod health;
pub mod logging;
pub mod maintenance;
pub mod power;
pub mod processes;
pub mod remote;
pub mod runner;
pub mod scheduler;
pub mod selfupdate;
pub mod shell;
pub mod snapshot;
pub mod startup;
pub mod telemetry;
pub mod text;
pub mod updates;

verus! {
} // verus!
