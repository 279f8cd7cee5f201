use actix_demo::todo::model::TodoItem;
use actix_demo::todo::service::{todo_add, todo_add_step, TodoAddAction, TodoAddEvent, TodoAddState};
use actix_demo::utils::error::{context, ActixDemoError, ContextError};

#[test]
fn context_passes_success_through() {
    let checked = context(Ok::<u32, String>(7), "Error inserting todo");
    assert!(matches!(checked, Ok(7)));
}

#[test]
fn context_wraps_failure() {
    let checked = context(Err::<u32, String>("disk full".to_string()), "Error inserting todo");
    match checked {
        Err(ActixDemoError::UnexpectedError(e)) => {
            assert_eq!(e.message, "Error inserting todo");
            assert_eq!(e.source, Some("disk full".to_string()));
        }
        _ => panic!("expected an error"),
    }
}

#[test]
fn error_response_is_json_500() {
    let err = ActixDemoError::UnexpectedError(ContextError {
        message: "Error requesting service B".to_string(),
        source: Some("timed out".to_string()),
    });
    assert_eq!(err.status_code(), 500);
    let reply = err.error_response();
    assert_eq!(reply.status, 500);
    assert_eq!(reply.headers.len(), 1);
    assert_eq!(reply.headers[0].name, "content-type");
    assert_eq!(reply.headers[0].value, b"application/json".to_vec());
    assert_eq!(
        reply.body,
        r#"{ "message": "Error requesting service B", "source": "timed out" }"#
    );
}

#[test]
fn error_response_without_source() {
    let err = ActixDemoError::UnexpectedError(ContextError { message: "oops".to_string(), source: None });
    assert_eq!(err.to_string(), "oops");
    assert_eq!(err.source(), None);
    assert_eq!(err.error_response().body, r#"{ "message": "oops", "source": "" }"#);
}

fn item(description: &str) -> TodoItem {
    TodoItem { description: description.to_string(), done: None }
}

#[test]
fn todo_add_stores_and_answers_row_id() {
    let state = todo_add(&item("buy milk"));
    match &state {
        TodoAddState::Acquiring(d) => assert_eq!(d, "buy milk"),
        _ => panic!("expected to acquire a connection"),
    }
    let (state, action) = todo_add_step(state, TodoAddEvent::Acquired(Ok(())));
    assert!(matches!(state, TodoAddState::Inserting));
    match action {
        TodoAddAction::Insert(statement) => {
            assert_eq!(statement.sql, "insert into todos (description) values (?1)");
            assert_eq!(statement.description, "buy milk");
        }
        _ => panic!("expected the insert"),
    }
    let (state, action) = todo_add_step(state, TodoAddEvent::Inserted(Ok(42)));
    assert!(matches!(state, TodoAddState::Finished));
    match action {
        TodoAddAction::Respond(Ok(response)) => assert_eq!(response.data.row_id, 42),
        _ => panic!("expected the row id"),
    }
}

#[test]
fn todo_add_connection_failure() {
    let state = todo_add(&item("x"));
    let (state, action) = todo_add_step(state, TodoAddEvent::Acquired(Err("pool closed".to_string())));
    assert!(matches!(state, TodoAddState::Finished));
    match action {
        TodoAddAction::Respond(Err(err)) => {
            assert_eq!(err.to_string(), "Error getting connection from pool");
            assert_eq!(err.source(), Some("pool closed".to_string()));
        }
        _ => panic!("expected an error"),
    }
}

#[test]
fn todo_add_insert_failure() {
    let state = todo_add(&item("x"));
    let (state, _) = todo_add_step(state, TodoAddEvent::Acquired(Ok(())));
    let (state, action) = todo_add_step(state, TodoAddEvent::Inserted(Err("no such table: todos".to_string())));
    assert!(matches!(state, TodoAddState::Finished));
    match action {
        TodoAddAction::Respond(Err(err)) => {
            assert_eq!(err.to_string(), "Error inserting todo");
            assert_eq!(
                err.error_response().body,
                r#"{ "message": "Error inserting todo", "source": "no such table: todos" }"#
            );
        }
        _ => panic!("expected an error"),
    }
}

#[test]
fn todo_states_accept_their_events() {
    assert!(TodoAddState::Inserting.accepts(&TodoAddEvent::Inserted(Ok(1))));
    assert!(!TodoAddState::Inserting.accepts(&TodoAddEvent::Acquired(Ok(()))));
    assert!(!TodoAddState::Finished.accepts(&TodoAddEvent::Inserted(Ok(1))));
}
