use vstd::prelude::*;

use crate::todo::model::TodoItem;
use crate::utils::error::{context, is_context_error, ActixDemoError};
use crate::utils::response::ActixDemoResponse;

verus! {

/// The statement that stores a to-do item; its one parameter is the
/// item's description.
pub open spec fn insert_todo_sql() -> Seq<char> {
    "insert into todos (description) values (?1)"@
}

/// The statement to run against the database and the value bound to it.
pub struct InsertStatement {
    pub sql: String,
    pub description: String,
}

/// The answer's payload: the row id of the stored item, under `row_id`.
#[derive(Clone, Copy, Debug, PartialEq, Eq, Structural)]
pub struct InsertedRow {
    pub row_id: i64,
}

/// Where the storing of a to-do item stands.
pub enum TodoAddState {
    /// A database connection is being acquired for this description.
    Acquiring(String),
    /// The insert statement is running.
    Inserting,
    /// The answer has been decided.
    Finished,
}

/// What the outside work reports back.
pub enum TodoAddEvent {
    /// A connection was acquired, or acquiring failed with this text.
    Acquired(Result<(), String>),
    /// The statement stored the item under this row id, or failed.
    Inserted(Result<i64, String>),
}

/// What the outside work does next.
pub enum TodoAddAction {
    /// Run this statement on the acquired connection.
    Insert(InsertStatement),
    /// Answer the client with this JSON payload or error.
    Respond(Result<ActixDemoResponse<InsertedRow>, ActixDemoError>),
}

/// The events that each state waits for.
pub open spec fn todo_add_accepts(state: TodoAddState, event: TodoAddEvent) -> bool {
    match (state, event) {
        (TodoAddState::Acquiring(_), TodoAddEvent::Acquired(_)) => true,
        (TodoAddState::Inserting, TodoAddEvent::Inserted(_)) => true,
        _ => false,
    }
}

/// One step of storing an item: a failure ends it with an error whose
/// context names the failed stage; an acquired connection gets the insert
/// statement with the item's description; a stored item is answered with
/// its row id.
pub open spec fn todo_add_transition(state: TodoAddState, event: TodoAddEvent, next: (TodoAddState, TodoAddAction)) -> bool {
    match (state, event) {
        (TodoAddState::Acquiring(description), TodoAddEvent::Acquired(Ok(()))) => {
            &&& next.0 is Inserting
            &&& next.1 matches TodoAddAction::Insert(statement)
            &&& statement.sql@ == insert_todo_sql()
            &&& statement.description == description
        },
        (TodoAddState::Acquiring(_), TodoAddEvent::Acquired(Err(e))) => {
            &&& next.0 is Finished
            &&& next.1 matches TodoAddAction::Respond(Err(err))
            &&& is_context_error(err, "Error getting connection from pool"@, e@)
        },
        (TodoAddState::Inserting, TodoAddEvent::Inserted(Ok(row_id))) => {
            next == (TodoAddState::Finished, TodoAddAction::Respond(Ok(ActixDemoResponse { data: InsertedRow { row_id } })))
        },
        (TodoAddState::Inserting, TodoAddEvent::Inserted(Err(e))) => {
            &&& next.0 is Finished
            &&& next.1 matches TodoAddAction::Respond(Err(err))
            &&& is_context_error(err, "Error inserting todo"@, e@)
        },
        _ => false,
    }
}

impl TodoAddState {
    /// Whether this state waits for `event`.
    pub fn accepts(&self, event: &TodoAddEvent) -> (ok: bool)
        ensures
            ok == todo_add_accepts(*self, *event),
    {
        match (self, event) {
            (TodoAddState::Acquiring(_), TodoAddEvent::Acquired(_)) => true,
            (TodoAddState::Inserting, TodoAddEvent::Inserted(_)) => true,
            _ => false,
        }
    }
}

/// The start of `POST /todo`: acquire a connection to store the item's
/// description.
pub fn todo_add(todo_item: &TodoItem) -> (start: TodoAddState)
    ensures
        start matches TodoAddState::Acquiring(description) && description@ == todo_item.description@,
{
    TodoAddState::Acquiring(todo_item.description.clone())
}

/// The next state and action of `POST /todo` once `event` is reported.
pub fn todo_add_step(state: TodoAddState, event: TodoAddEvent) -> (next: (TodoAddState, TodoAddAction))
    requires
        todo_add_accepts(state, event),
    ensures
        todo_add_transition(state, event, next),
{
    match (state, event) {
        (TodoAddState::Acquiring(description), TodoAddEvent::Acquired(acquired)) => match context(acquired, "Error getting connection from pool") {
            Ok(()) => {
                let statement = InsertStatement {
                    sql: String::from_str("insert into todos (description) values (?1)"),
                    description,
                };
                (TodoAddState::Inserting, TodoAddAction::Insert(statement))
            },
            Err(err) => (TodoAddState::Finished, TodoAddAction::Respond(Err(err))),
        },
        (TodoAddState::Inserting, TodoAddEvent::Inserted(inserted)) => match context(inserted, "Error inserting todo") {
            Ok(row_id) => (TodoAddState::Finished, TodoAddAction::Respond(Ok(ActixDemoResponse { data: InsertedRow { row_id } }))),
            Err(err) => (TodoAddState::Finished, TodoAddAction::Respond(Err(err))),
        },
        _ => {
            assert(false);
            (TodoAddState::Finished, TodoAddAction::Respond(Ok(ActixDemoResponse { data: InsertedRow { row_id: 0 } })))
        },
    }
}

/// Each waiting state takes the report of its own stage, whatever it
/// says, and a finished exchange takes no report.
pub proof fn lemma_todo_add_accepts_own_stage(
    description: String,
    acquired: Result<(), String>,
    inserted: Result<i64, String>,
    event: TodoAddEvent,
)
    ensures
        todo_add_accepts(TodoAddState::Acquiring(description), TodoAddEvent::Acquired(acquired)),
        todo_add_accepts(TodoAddState::Inserting, TodoAddEvent::Inserted(inserted)),
        !todo_add_accepts(TodoAddState::Finished, event),
{
}

/// Storing an item whose connection and insert both succeed runs the
/// insert statement with the item's description and answers with the row
/// id that the database gave.
pub proof fn lemma_todo_add_success_answers_row_id(
    description: String,
    row_id: i64,
    first: (TodoAddState, TodoAddAction),
    second: (TodoAddState, TodoAddAction),
)
    requires
        todo_add_transition(TodoAddState::Acquiring(description), TodoAddEvent::Acquired(Ok(())), first),
        todo_add_transition(first.0, TodoAddEvent::Inserted(Ok(row_id)), second),
    ensures
        first.1 matches TodoAddAction::Insert(statement) && statement.description == description
            && statement.sql@ == "insert into todos (description) values (?1)"@,
        second.0 is Finished,
        second.1 matches TodoAddAction::Respond(Ok(response)) && response.data.row_id == row_id,
{
}

/// Every step of storing an item answers the client exactly when it ends
/// the exchange.
pub proof fn lemma_todo_add_responds_when_finished(state: TodoAddState, event: TodoAddEvent, next: (TodoAddState, TodoAddAction))
    requires
        todo_add_transition(state, event, next),
    ensures
        (next.0 is Finished) <==> (next.1 is Respond),
{
}

} // verus!
