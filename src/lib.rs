pub mod cli;
pub mod config;
pub mod docker;
pub mod git;
pub mod history;
pub mod http;
pub mod loader;
pub mod plugin;
pub mod registry;
pub mod scan;
pub mod text;
