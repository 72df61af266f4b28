pub mod config;
pub mod decimal;
pub mod error;
pub mod fetch;
pub mod json;
pub mod loader;
pub mod table;
