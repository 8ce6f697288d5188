//! The logic of the compilation API service.
pub mod handlers;
pub mod hardhat_config;
pub mod types;
pub mod utils;
