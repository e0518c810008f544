//! The core of a terminal client for a fleet of inference workers: the shared
//! application state, the action workflow that runs on it, and the reader that
//! turns a streamed JSON-lines reply into output records.
pub mod text;
pub mod json;
pub mod ingest;
pub mod models;
pub mod config;
pub mod app;
pub mod workers;
pub mod tui;
pub mod control_panel;
pub mod setup_form;
