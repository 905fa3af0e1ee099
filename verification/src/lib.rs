pub mod text;
pub mod config;
pub mod packages;
pub mod install;
pub mod command;
pub mod constants;
pub mod state;
pub mod scan;
pub mod screen;
pub mod laws;
