pub mod config;
pub mod database;
pub mod pods;
pub mod session;
pub mod traits;
pub mod utils;
