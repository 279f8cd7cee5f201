pub mod error;
pub mod kafka;
pub mod text;
pub mod configuration;
pub mod response;
