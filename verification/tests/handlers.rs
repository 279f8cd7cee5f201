use actix_demo::handlers::{
    echo, hello, manual_hello, serviceb, serviceb_step, ServiceBAction, ServiceBEvent, ServiceBState,
};
use actix_demo::http::HttpHeader;
use actix_demo::server::{json_error_reply, server_plan, JSON_LIMIT};
use actix_demo::utils::configuration::{Application, Configuration, Database, Otel, ServiceB};

fn header(name: &str, value: &[u8]) -> HttpHeader {
    HttpHeader { name: name.to_string(), value: value.to_vec() }
}

fn configuration(otel: bool) -> Configuration {
    Configuration {
        application: Application {
            name: "actix-demo".to_string(),
            port: 8080,
            otel: Otel { enable: otel, grpc_url: "http://localhost:4317".to_string() },
            database: Database { url: "sqlite://todos.db".to_string() },
        },
        service_b: ServiceB { url: "http://localhost:8081/echo".to_string() },
    }
}

#[test]
fn hello_greets() {
    let reply = hello();
    assert_eq!(reply.status, 200);
    assert!(reply.headers.is_empty());
    assert_eq!(reply.body, "Hello world!");
}

#[test]
fn manual_hello_greets() {
    let reply = manual_hello();
    assert_eq!(reply.status, 200);
    assert!(reply.headers.is_empty());
    assert_eq!(reply.body, "Hey there!");
}

#[test]
fn echo_prefixes_headers_and_returns_body() {
    let headers = vec![header("content-type", b"text/plain"), header("x-trace", b"abc")];
    let reply = echo(&headers, "ping".to_string());
    assert_eq!(reply.status, 200);
    assert_eq!(reply.headers.len(), 2);
    assert_eq!(reply.headers[0].name, "req_content-type");
    assert_eq!(reply.headers[0].value, b"text/plain".to_vec());
    assert_eq!(reply.headers[1].name, "req_x-trace");
    assert_eq!(reply.headers[1].value, b"abc".to_vec());
    assert_eq!(reply.body, "ping");
}

#[test]
fn echo_without_headers() {
    let reply = echo(&Vec::new(), String::new());
    assert_eq!(reply.status, 200);
    assert!(reply.headers.is_empty());
    assert_eq!(reply.body, "");
}

#[test]
fn serviceb_forwards_and_returns_answer() {
    let conf = configuration(false);
    let (state, request) = serviceb(&conf, vec![header("accept", b"*/*")], "hi".to_string());
    assert!(matches!(state, ServiceBState::Building));
    assert_eq!(request.url, "http://localhost:8081/echo");
    assert_eq!(request.headers.len(), 1);
    assert_eq!(request.headers[0].name, "accept");
    assert_eq!(request.body, "hi");

    let (state, action) = serviceb_step(state, ServiceBEvent::Built(Ok(())));
    assert!(matches!(state, ServiceBState::Sending));
    assert!(matches!(action, ServiceBAction::Send));

    let (state, action) = serviceb_step(state, ServiceBEvent::Sent(Ok(vec![header("server", b"b")])));
    assert!(matches!(state, ServiceBState::ReadingBody(_)));
    assert!(matches!(action, ServiceBAction::ReadBody));

    let (state, action) = serviceb_step(state, ServiceBEvent::BodyRead(Ok("pong".to_string())));
    assert!(matches!(state, ServiceBState::Finished));
    match action {
        ServiceBAction::Respond(Ok(reply)) => {
            assert_eq!(reply.status, 200);
            assert_eq!(reply.headers.len(), 1);
            assert_eq!(reply.headers[0].name, "server");
            assert_eq!(reply.headers[0].value, b"b".to_vec());
            assert_eq!(reply.body, "pong");
        }
        _ => panic!("expected a reply"),
    }
}

fn expect_error(action: ServiceBAction, message: &str, source: &str) {
    match action {
        ServiceBAction::Respond(Err(err)) => {
            assert_eq!(err.to_string(), message);
            assert_eq!(err.source(), Some(source.to_string()));
            let reply = err.error_response();
            assert_eq!(reply.status, 500);
            assert_eq!(
                reply.body,
                format!("{{ \"message\": \"{}\", \"source\": \"{}\" }}", message, source)
            );
        }
        _ => panic!("expected an error"),
    }
}

#[test]
fn serviceb_build_failure() {
    let (state, _) = serviceb(&configuration(false), Vec::new(), String::new());
    let (state, action) = serviceb_step(state, ServiceBEvent::Built(Err("bad url".to_string())));
    assert!(matches!(state, ServiceBState::Finished));
    expect_error(action, "Error creating request for service B", "bad url");
}

#[test]
fn serviceb_send_failure() {
    let (state, _) = serviceb(&configuration(false), Vec::new(), String::new());
    let (state, _) = serviceb_step(state, ServiceBEvent::Built(Ok(())));
    let (state, action) = serviceb_step(state, ServiceBEvent::Sent(Err("connection refused".to_string())));
    assert!(matches!(state, ServiceBState::Finished));
    expect_error(action, "Error requesting service B", "connection refused");
}

#[test]
fn serviceb_body_failure() {
    let (state, _) = serviceb(&configuration(false), Vec::new(), String::new());
    let (state, _) = serviceb_step(state, ServiceBEvent::Built(Ok(())));
    let (state, _) = serviceb_step(state, ServiceBEvent::Sent(Ok(Vec::new())));
    let (state, action) = serviceb_step(state, ServiceBEvent::BodyRead(Err("reset".to_string())));
    assert!(matches!(state, ServiceBState::Finished));
    expect_error(action, "Error extract body from service B response", "reset");
}

#[test]
fn serviceb_states_accept_their_events() {
    assert!(ServiceBState::Building.accepts(&ServiceBEvent::Built(Ok(()))));
    assert!(!ServiceBState::Building.accepts(&ServiceBEvent::Sent(Ok(Vec::new()))));
    assert!(ServiceBState::Sending.accepts(&ServiceBEvent::Sent(Err(String::new()))));
    assert!(!ServiceBState::Finished.accepts(&ServiceBEvent::BodyRead(Ok(String::new()))));
}

#[test]
fn server_plan_with_tracing() {
    let plan = server_plan(&configuration(true));
    let export = plan.trace_export.expect("tracing enabled");
    assert_eq!(export.endpoint, "http://localhost:4317");
    assert_eq!(export.service_name, "actix-demo");
    assert_eq!(plan.database_url, "sqlite://todos.db");
    assert_eq!(plan.host, "0.0.0.0");
    assert_eq!(plan.port, 8080);
    assert_eq!(plan.json_limit, 4096);
    assert_eq!(JSON_LIMIT, 4096);
}

#[test]
fn server_plan_without_tracing() {
    let plan = server_plan(&configuration(false));
    assert!(plan.trace_export.is_none());
    assert_eq!(plan.port, 8080);
}

#[test]
fn json_errors_conflict() {
    let reply = json_error_reply();
    assert_eq!(reply.status, 409);
    assert!(reply.headers.is_empty());
    assert!(reply.body.is_empty());
}

#[test]
fn echo_keeps_tab_in_value() {
    let reply = echo(&vec![header("x-list", b"a\tb")], String::new());
    assert_eq!(reply.headers[0].name, "req_x-list");
    assert_eq!(reply.headers[0].value, b"a\tb".to_vec());
}
