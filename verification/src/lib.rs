//! Core logic of the Daemon OS monitoring agent: the event lifecycle, the
//! health assessment of system telemetry, the memory of past assessments,
//! the security scoring, and the decisions of the agent and of its API.

pub mod text;
pub mod clock;
pub mod events;
pub mod event_engine;
pub mod intelligence;
pub mod ordering;
pub mod telemetry;
pub mod history;
pub mod memory;
pub mod security;
pub mod event_store;
pub mod config;
pub mod service;
pub mod api;
pub mod agent;
