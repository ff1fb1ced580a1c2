//! A personal backup agent: archives configured paths, publishes them to a
//! remote repository, and decides when a scheduled run is due.

pub mod config;
pub mod executor;
pub mod input;
pub mod naming;
pub mod pipeline;
pub mod plan;
pub mod schedule;
pub mod text;
pub mod time;
