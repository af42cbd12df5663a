//! Day/night theme coordination: cached astronomical data, a pure day/night
//! decision rule, schedule predicates for the two recurring jobs, and the
//! shared state the foreground commands and the background jobs both use.

pub mod commands;
pub mod config;
pub mod decision;
pub mod scheduler;
pub mod shared_state;
pub mod sun_data;
pub mod theme;
pub mod time;
