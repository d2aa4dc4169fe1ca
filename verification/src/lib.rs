pub mod app_update;
pub mod commands;
pub mod config;
pub mod floci;
pub mod models;
pub mod service_management;
pub mod services;
pub mod text;
