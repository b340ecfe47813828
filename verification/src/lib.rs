//! Toolkit-independent core of a personnel-management desktop client:
//! the records and payloads of the REST API, the requests the client sends,
//! the client-side snapshots, and the workflow that turns a confirmed user
//! action into gateway calls followed by a reload of the affected snapshots.

pub mod app;
pub mod backend;
pub mod cache;
pub mod colors;
pub mod config;
pub mod dialogs;
pub mod forms;
pub mod gateway;
pub mod laws;
pub mod models;
pub mod screens;
pub mod text;
pub mod workflow;
