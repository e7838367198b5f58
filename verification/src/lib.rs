//! A fork/join orchestrator for multiple isolated application "worlds".
//!
//! One world is always in the foreground, driving the update and render
//! loop; at most one world is held in the background, suspended or ticked
//! according to a policy. Commands sent through a shared mailbox move
//! worlds between the two slots, and a resource-migration step relocates
//! windows, timing signals and the render pipeline so that expensive
//! platform resources are moved, never duplicated.

pub mod app;
pub mod kvmap;
pub mod laws;
pub mod plugins;
pub mod render_worker;
pub mod run_conditions;
pub mod subapp;
pub mod window_utils;
pub mod world;
