pub mod engine;
pub mod ip;
pub mod laws;
pub mod name;
pub mod setup;
pub mod types;
