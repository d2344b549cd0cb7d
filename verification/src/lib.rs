//! A personal task tracker: tasks carry a short description and a lifecycle
//! state (pending, done, dropped). Command-line arguments are parsed into a
//! typed `Action`, and a gateway executes each action against an embedded
//! SQLite store.

pub mod types;
pub mod parser;
pub mod model;
pub mod render;
pub mod gateway;
