pub mod agents;
pub mod config;
pub mod engine;
pub mod error;
pub mod events;
pub mod feedback;
pub mod fs_utils;
pub mod github;
pub mod matching;
pub mod mcp;
pub mod profile;
pub mod reports;
pub mod text;
pub mod types;
