pub mod artifact;
pub mod assembly;
pub mod config;
pub mod kit;
pub mod profile;
