//! Action-driven state-synchronization core of a terminal dashboard for
//! browsing cloud-account resources.
//!
//! A single engine owns the canonical [`appstate::AppState`] aggregate,
//! applies [`actions::Action`] messages strictly one at a time, interleaves
//! slow, fallible remote operations without ever leaving a half-mutated
//! state observable, and hands a consistent snapshot to the rendering loop
//! after every mutation.

pub mod action_handler;
pub mod actions;
pub mod app_config;
pub mod appstate;
pub mod cloud_watch_logs_action_handler;
pub mod cloud_watch_logs_state;
pub mod focus;
pub mod manager;
pub mod profile_action_handler;
pub mod profile_cache;
pub mod profiles;
pub mod region_action_handler;
pub mod remote;
pub mod runner;
pub mod service_action_handler;
pub mod ui_config;
