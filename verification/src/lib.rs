//! Verified core of a configuration-driven manager for `cargo install`.

pub mod args;
pub mod cargo;
pub mod cli;
pub mod coloring;
pub mod commands;
pub mod config;
pub mod laws;
pub mod levels;
pub mod search;
pub mod string_map;
pub mod text;
pub mod version;
