use vstd::prelude::*;

verus! {

/// A to-do item as posted by a client.
#[derive(Clone, Debug)]
pub struct TodoItem {
    pub description: String,
    pub done: Option<bool>,
}

} // verus!
