pub mod address;
pub mod config;
pub mod dns;
pub mod errors;
pub mod ip;
pub mod orchestrator;
pub mod query;
pub mod schedule;
pub mod text;
pub mod update;
