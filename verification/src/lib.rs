pub mod commands;
pub mod config;
pub mod repo;
pub mod setup;
pub mod shortcuts;
pub mod text;
pub mod tray;
pub mod window;
