//! The workflow half of the running server.

pub mod effects;
pub mod history;
pub mod history_view;
pub mod lead;
pub mod lead_talk;
pub mod panes;
pub mod review;
pub mod review_desk;
pub mod review_inputs;
pub mod review_start;
pub mod store;
pub mod tick;
