pub mod headers;
pub mod service;
pub mod consumer;
