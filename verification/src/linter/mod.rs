//! The lint engine's configuration and rules.

pub mod rule_name;
pub mod prefer_string_replace_all;
pub mod json;
pub mod config;
pub mod settings;
pub mod rules;
pub mod eslint_config;
pub mod context;
