use vstd::prelude::*;

use crate::http::Reply;
use crate::utils::configuration::Configuration;

verus! {

/// Where traces are exported and under which service name.
pub struct TraceExport {
    pub endpoint: String,
    pub service_name: String,
}

/// How the server is set up from its configuration.
pub struct ServerPlan {
    /// The trace exporter to install, when tracing export is enabled.
    pub trace_export: Option<TraceExport>,
    /// The database that the to-do items are stored in.
    pub database_url: String,
    /// The address and port that the server listens on.
    pub host: String,
    pub port: u16,
    /// The largest JSON body accepted, in bytes.
    pub json_limit: usize,
}

/// The largest JSON request body that the server accepts, in bytes.
pub const JSON_LIMIT: usize = 4096;

/// The set-up of the server: traces go to the configured OTLP endpoint
/// under the application's name exactly when export is enabled; the
/// configured database; all interfaces on the configured port; JSON bodies
/// up to 4096 bytes.
pub fn server_plan(conf: &Configuration) -> (plan: ServerPlan)
    ensures
        plan.trace_export is Some <==> conf.application.otel.enable,
        plan.trace_export matches Some(export) ==> {
            &&& export.endpoint@ == conf.application.otel.grpc_url@
            &&& export.service_name@ == conf.application.name@
        },
        plan.database_url@ == conf.application.database.url@,
        plan.host@ == "0.0.0.0"@,
        plan.port == conf.application.port,
        plan.json_limit == JSON_LIMIT,
{
    let trace_export = if conf.application.otel.enable {
        Some(TraceExport {
            endpoint: conf.application.otel.grpc_url.clone(),
            service_name: conf.application.name.clone(),
        })
    } else {
        None
    };
    ServerPlan {
        trace_export,
        database_url: conf.application.database.url.clone(),
        host: String::from_str("0.0.0.0"),
        port: conf.application.port,
        json_limit: JSON_LIMIT,
    }
}

/// The answer to a JSON body that cannot be read: status 409, nothing else.
pub fn json_error_reply() -> (reply: Reply)
    ensures
        reply.status == 409,
        reply.headers@.len() == 0,
        reply.body@.len() == 0,
{
    Reply { status: 409, headers: Vec::new(), body: String::new() }
}

} // verus!
