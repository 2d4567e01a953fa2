pub mod database_read;
pub mod database_readable;
