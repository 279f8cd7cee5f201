//! Request handling, error reporting and Kafka plumbing of a small actix-web
//! demo service, stated as verified functions over plain values.
//!
//! The HTTP server, the database, the Kafka client and the telemetry exporters
//! are driven by the application around this library. The decisions they
//! take (what to answer, which error to report, which headers to forward,
//! which configuration to hand to Kafka) are computed here; reading request
//! headers as text, which fails on values that are not visible ASCII, is
//! done by the HTTP layer before the library is called.

pub mod handlers;
pub mod http;
pub mod utils;
pub mod producer;
pub mod server;
pub mod todo;
