pub mod actions;
pub mod errors;
pub mod models;
pub mod registry;
pub mod text_map;
pub mod adapters;
pub mod catalog;
