//! The configuration: the user's file, Cargo's record of installed crates,
//! the environment, and how they combine.

pub mod cargo_crates_toml;
pub mod effective_config;
pub mod env;
pub mod package;
pub mod user_config;
