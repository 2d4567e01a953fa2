pub mod device;
pub mod user;
