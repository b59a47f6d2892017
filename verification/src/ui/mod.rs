//! Terminal UI logic: navigation between views, the reaction to keys, and
//! what the views show.
pub mod app;
pub mod navigation;
pub mod views;
