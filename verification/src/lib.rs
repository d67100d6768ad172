//! Configuration, path handling and menu logic of the lucida downloader.

pub mod cli;
pub mod config;
pub mod download;
pub mod fetch;
pub mod paths;
pub mod progress;
pub mod session;
pub mod text;
pub mod tui;
