//! The commands of the todo manager, each on a store that the caller holds.

use vstd::prelude::*;
use crate::clock::{is_short_date, today};
use crate::database::DBtodo;
use crate::error::{Invalid, TodoError};
use crate::models::{Todo, TodoView, views};
use crate::text::{capitalize, capitalized, same_text};

verus! {

/// A value that was given, or the default in its place.
pub open spec fn given_or(value: Option<String>, default: Seq<char>) -> Seq<char> {
    match value {
        Some(v) => v@,
        None => default,
    }
}

/// The priorities that a new record may be given.
pub open spec fn valid_priority(p: Seq<char>) -> bool {
    p == "normal"@ || p == "high"@ || p == "low"@ || p == "medium"@
}

/// Whether a record can be composed of these: the title is not empty, and the
/// priority, where one is given, is one of the four.
pub open spec fn can_compose(text: Seq<char>, priority: Option<String>) -> bool {
    text.len() > 0 && valid_priority(given_or(priority, "normal"@))
}

/// What is wrong where a record cannot be composed: the priority, if it is
/// unknown; else the title.
pub open spec fn why_not(priority: Option<String>) -> Invalid {
    if !valid_priority(given_or(priority, "normal"@)) {
        Invalid::UnknownPriority
    } else {
        Invalid::EmptyTitle
    }
}

/// The record composed of what was given for it. What was not given takes
/// its default; priority, topic, title, description and owner begin with a
/// capital; the status is "Pending". The identifier is the store's to assign.
pub open spec fn composed(
    text: Seq<char>,
    topic: Option<String>,
    priority: Option<String>,
    owner: Option<String>,
    due: Option<String>,
    desc: Option<String>,
    date_added: Seq<char>,
) -> TodoView {
    TodoView {
        id: 0,
        priority: capitalized(given_or(priority, "normal"@)),
        topic: capitalized(given_or(topic, "General"@)),
        text: capitalized(text),
        desc: capitalized(given_or(desc, "No description provided"@)),
        date_added,
        status: "Pending"@,
        owner: capitalized(given_or(owner, "You"@)),
        due: given_or(due, "-"@),
    }
}

/// The text given, or the default.
fn text_or(value: &Option<String>, default: &str) -> (res: String)
    ensures
        res@ == given_or(*value, default@),
{
    match value {
        Some(v) => v.clone(),
        None => String::from_str(default),
    }
}

/// Whether `p` is one of the four priorities.
pub fn is_valid_priority(p: &str) -> (res: bool)
    ensures
        res == valid_priority(p@),
{
    same_text(p, "normal") || same_text(p, "high") || same_text(p, "low") || same_text(p, "medium")
}

/// Composes a record of what was given for it and the date it is added on.
/// An unknown priority or an empty title is a validation error, which names
/// the first of the two that it found.
pub fn compose_todo(
    text: &String,
    topic: &Option<String>,
    priority: &Option<String>,
    owner: &Option<String>,
    due: &Option<String>,
    desc: &Option<String>,
    date_added: String,
) -> (res: Result<Todo, TodoError>)
    ensures
        match res {
            Ok(todo) => can_compose(text@, *priority) && todo@ == composed(
                text@,
                *topic,
                *priority,
                *owner,
                *due,
                *desc,
                date_added@,
            ),
            Err(e) => !can_compose(text@, *priority) && e == TodoError::ValidationError(
                why_not(*priority),
            ),
        },
{
    let priority_text = text_or(priority, "normal");
    if !is_valid_priority(priority_text.as_str()) {
        return Err(TodoError::ValidationError(Invalid::UnknownPriority));
    }
    if text.as_str().unicode_len() == 0 {
        return Err(TodoError::ValidationError(Invalid::EmptyTitle));
    }
    let topic_text = text_or(topic, "General");
    let owner_text = text_or(owner, "You");
    let desc_text = text_or(desc, "No description provided");
    Ok(
        Todo {
            id: 0,
            priority: capitalize(priority_text.as_str()),
            topic: capitalize(topic_text.as_str()),
            text: capitalize(text.as_str()),
            desc: capitalize(desc_text.as_str()),
            date_added,
            status: String::from_str("Pending"),
            owner: capitalize(owner_text.as_str()),
            due: text_or(due, "-"),
        },
    )
}

/// Adds a record that was added on `date_added`. Returns the identifier that
/// the store assigned. Where the record cannot be composed, or the store has
/// no identifier left, the store stays as it is.
pub fn add_todo_dated(
    db: &mut DBtodo,
    text: String,
    topic: Option<String>,
    priority: Option<String>,
    owner: Option<String>,
    due: Option<String>,
    desc: Option<String>,
    date_added: String,
) -> (res: Result<usize, TodoError>)
    requires
        old(db).wf(),
    ensures
        final(db).wf(),
        match res {
            Ok(id) => can_compose(text@, priority) && old(db)@.has_room() && id == old(db)@.next_id
                && final(db)@ == old(db)@.insert(
                composed(text@, topic, priority, owner, due, desc, date_added@),
            ),
            Err(e) => final(db)@ == old(db)@ && if !can_compose(text@, priority) {
                e == TodoError::ValidationError(why_not(priority))
            } else {
                !old(db)@.has_room() && e == TodoError::StorageUnavailable
            },
        },
{
    match compose_todo(&text, &topic, &priority, &owner, &due, &desc, date_added) {
        Ok(todo) => db.add_todo(&todo),
        Err(e) => Err(e),
    }
}

/// Adds a record, stamped with today's date. Returns the identifier that the
/// store assigned. Where the record cannot be composed, or the store has no
/// identifier left, the store stays as it is.
pub fn add_todo(
    db: &mut DBtodo,
    text: String,
    topic: Option<String>,
    priority: Option<String>,
    owner: Option<String>,
    due: Option<String>,
    desc: Option<String>,
) -> (res: Result<usize, TodoError>)
    requires
        old(db).wf(),
    ensures
        final(db).wf(),
        match res {
            Ok(id) => can_compose(text@, priority) && old(db)@.has_room() && id == old(db)@.next_id
                && exists|date: Seq<char>|
                is_short_date(date) && final(db)@ == old(db)@.insert(
                    #[trigger] composed(text@, topic, priority, owner, due, desc, date),
                ),
            Err(e) => final(db)@ == old(db)@ && if !can_compose(text@, priority) {
                e == TodoError::ValidationError(why_not(priority))
            } else {
                !old(db)@.has_room() && e == TodoError::StorageUnavailable
            },
        },
{
    let date = today();
    let ghost stamp = date@;
    let res = add_todo_dated(db, text, topic, priority, owner, due, desc, date);
    proof {
        if res is Ok {
            assert(is_short_date(stamp) && db@ == old(db)@.insert(
                composed(text@, topic, priority, owner, due, desc, stamp),
            ));
        }
    }
    res
}

/// Removes the record with identifier `id` and says whether there was one.
/// Where there is none, the store stays as it is.
pub fn remove_todo(db: &mut DBtodo, id: i32) -> (res: Result<bool, TodoError>)
    requires
        old(db).wf(),
    ensures
        final(db).wf(),
        final(db)@ == old(db)@.delete(id as int),
        res == Ok::<bool, TodoError>(old(db)@.has(id as int)),
{
    db.delete_todo(id)
}

/// Removes every record and returns how many there were.
pub fn clear_todos(db: &mut DBtodo) -> (removed: usize)
    requires
        old(db).wf(),
    ensures
        final(db).wf(),
        final(db)@ == old(db)@.clear(),
        removed == old(db)@.rows.len(),
{
    db.clear_all_todos()
}

/// Gives the record with identifier `id` the label `status` and says whether
/// there was such a record. Where there is none, the store stays as it is.
pub fn update_todo(db: &mut DBtodo, id: i32, status: String) -> (res: Result<bool, TodoError>)
    requires
        old(db).wf(),
    ensures
        final(db).wf(),
        final(db)@ == old(db)@.set_status(id as int, status@),
        res == Ok::<bool, TodoError>(old(db)@.has(id as int)),
{
    db.update_todo(id, status)
}

/// The records of the store, in its order.
pub fn sample_todos(db: &DBtodo) -> (todos: Vec<Todo>)
    ensures
        views(todos@) == db@.rows,
{
    db.get_todos()
}

} // verus!
