//! Decision logic of the `kvx` command line and of the workflow runtime behind it.

pub mod app;
pub mod calendar;
pub mod cli;
pub mod console;
pub mod documents;
pub mod events;
pub mod ipc;
pub mod json;
pub mod laws;
pub mod model;
pub mod ordered;
pub mod path;
pub mod text;
pub mod wire;
