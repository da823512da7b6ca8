pub mod boundary;
pub mod codec;
pub mod config;
pub mod error;
pub mod ids;
pub mod memory;
pub mod model;
pub mod repo;
pub mod settings;
