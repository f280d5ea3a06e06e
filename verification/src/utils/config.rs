//! The application's configuration profiles.

pub mod app_config;
pub mod config_manager;
