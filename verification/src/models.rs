//! The todo record.

use vstd::prelude::*;

verus! {

/// One todo record. The store assigns `id` on insert; `date_added` is taken at
/// insert time; neither changes afterwards.
#[derive(Debug)]
pub struct Todo {
    pub id: usize,
    pub priority: String,
    pub topic: String,
    pub text: String,
    pub desc: String,
    pub date_added: String,
    pub status: String,
    pub owner: String,
    pub due: String,
}

/// A record as contracts see it: the identifier as a number, each text as its
/// characters.
pub struct TodoView {
    pub id: nat,
    pub priority: Seq<char>,
    pub topic: Seq<char>,
    pub text: Seq<char>,
    pub desc: Seq<char>,
    pub date_added: Seq<char>,
    pub status: Seq<char>,
    pub owner: Seq<char>,
    pub due: Seq<char>,
}

impl TodoView {
    /// The same record under another identifier.
    pub open spec fn with_id(self, id: nat) -> TodoView {
        TodoView { id, ..self }
    }

    /// The same record with another status label.
    pub open spec fn with_status(self, status: Seq<char>) -> TodoView {
        TodoView { status, ..self }
    }
}

impl View for Todo {
    type V = TodoView;

    open spec fn view(&self) -> TodoView {
        TodoView {
            id: self.id as nat,
            priority: self.priority@,
            topic: self.topic@,
            text: self.text@,
            desc: self.desc@,
            date_added: self.date_added@,
            status: self.status@,
            owner: self.owner@,
            due: self.due@,
        }
    }
}

/// The views of a run of records, in order.
pub open spec fn views(todos: Seq<Todo>) -> Seq<TodoView> {
    todos.map_values(|t: Todo| t@)
}

impl Clone for Todo {
    fn clone(&self) -> (res: Self)
        ensures
            res == *self,
    {
        Todo {
            id: self.id,
            priority: self.priority.clone(),
            topic: self.topic.clone(),
            text: self.text.clone(),
            desc: self.desc.clone(),
            date_added: self.date_added.clone(),
            status: self.status.clone(),
            owner: self.owner.clone(),
            due: self.due.clone(),
        }
    }
}

} // verus!
