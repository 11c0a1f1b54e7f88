//! Install and update engine for web applications.
//!
//! The engine decides how a signed package or a progressive web app is
//! registered, fetched, checked and applied, and how a run that fails is
//! undone. It performs no I/O. The embedding program downloads, reads and
//! verifies; it hands each answer to the step of the engine that asked for
//! it ([`install`], [`pwa`], [`request`], [`download`]), and the step says
//! what happens next. [`apps_request`] runs a whole request against answers
//! that are given in one piece, and [`laws`] states what holds of every
//! run.
//!
//! Beside the engine stand the state of the bridge to the web runtime
//! ([`bridge`]) and the observers of the time service ([`time`]).

pub mod apps_item;
pub mod apps_request;
pub mod bridge;
pub mod decider;
pub mod download;
pub mod downloadings;
pub mod errors;
pub mod events;
pub mod guards;
pub mod install;
pub mod laws;
pub mod manifest;
pub mod pwa;
pub mod registry;
pub mod request;
pub mod shared_state;
pub mod staging;
pub mod string_map;
pub mod text;
pub mod time;
pub mod urls;
pub mod versions;
