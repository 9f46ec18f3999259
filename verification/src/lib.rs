pub mod access;
pub mod config;
pub mod context;
pub mod deploy;
pub mod error;
pub mod library;
pub mod table;
pub mod text;
