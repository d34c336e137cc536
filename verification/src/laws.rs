//! What the library promises as a whole, said of inputs and results alone.

pub mod answers;
pub mod commands;
pub mod connections;
pub mod evidence;
pub mod files;
pub mod flags;
pub mod history;
pub mod interviews;
pub mod listings;
pub mod messages;
pub mod nodes;
pub mod notices;
pub mod places;
pub mod reviews;
pub mod runs;
pub mod screens;
pub mod sessions;
pub mod settings;
pub mod times;
pub mod tmux;
pub mod words;
