//! Core of a fill-in-middle code-completion proxy: token budgeting,
//! truncation planning, prompt construction, model-family resolution,
//! backend startup supervision, and the per-request orchestration state
//! machine. Transport and process I/O live outside the library; every
//! function here is verified.

pub mod budget;
pub mod config;
pub mod model;
pub mod orchestrator;
pub mod supervisor;
pub mod types;
