pub mod args;
pub mod cli;
pub mod components;
pub mod config;
pub mod mock;
pub mod plan;
