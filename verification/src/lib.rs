pub mod chain;
pub mod config;
pub mod error;
pub mod fields;
pub mod laws;
pub mod resource;
pub mod signal;
pub mod supervisor;
pub mod text;
