//! Verified core of a terminal client for the CloudHub runtime manager.
pub mod text;
pub mod error;
pub mod config;
pub mod auth;
pub mod api;
pub mod state;
pub mod ui;
