//! A small line-oriented search tool: argument validation, substring search
//! over the lines of a text (with an optional ASCII case-insensitive mode),
//! and rendering of the matching lines.
pub mod config;
pub mod error;
pub mod text;
pub mod search;
pub mod driver;
