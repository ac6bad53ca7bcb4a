//! Resolves approximate game names against a catalog of owned titles and
//! drives an interactive session that lists, launches and refreshes them.

pub mod catalog;
pub mod command;
pub mod config;
pub mod dispatcher;
pub mod distance;
pub mod launcher;
pub mod resolver;
pub mod text;
