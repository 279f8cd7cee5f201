use vstd::prelude::*;

verus! {

/// Where the second service of the demo is reached.
#[derive(Clone, Debug)]
pub struct ServiceB {
    pub url: String,
}

/// Where the database of to-do items lives.
#[derive(Clone, Debug)]
pub struct Database {
    pub url: String,
}

/// Whether traces are exported, and to which OTLP gRPC endpoint.
#[derive(Clone, Debug)]
pub struct Otel {
    pub enable: bool,
    pub grpc_url: String,
}

/// The settings of the application itself.
#[derive(Clone, Debug)]
pub struct Application {
    pub name: String,
    pub port: u16,
    pub otel: Otel,
    pub database: Database,
}

/// The whole configuration of the service, as read from the `config` file.
#[derive(Clone, Debug)]
pub struct Configuration {
    pub application: Application,
    pub service_b: ServiceB,
}

} // verus!
