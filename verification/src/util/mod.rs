pub mod config;
pub mod graph;
