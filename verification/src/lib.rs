pub mod admin;
pub mod config;
pub mod database;
pub mod directory;
pub mod error;
pub mod hex_utils;
pub mod utils;
