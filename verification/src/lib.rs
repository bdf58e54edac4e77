pub mod detector;
pub mod error;
pub mod laws;
pub mod platform;
pub mod probe;
pub mod settings;
pub mod tables;
pub mod text;
