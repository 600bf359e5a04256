//! What the commands tell the user: the listing of the records and the line
//! that follows each change.

use vstd::prelude::*;
use crate::error::{Invalid, TodoError};
use crate::models::{Todo, TodoView, views};
use crate::text::{decimal, push_decimal, signed_decimal, signed_decimal_text};

verus! {

/// The rule that opens and closes the block of one record.
pub open spec fn rule() -> Seq<char> {
    "---------------"@
}

/// The block of lines that shows one record, the `number`th of the listing.
pub open spec fn todo_block(r: TodoView, number: nat) -> Seq<Seq<char>> {
    seq![
        rule(),
        "Todo #"@ + decimal(number),
        "ID: "@ + decimal(r.id),
        "Priority: "@ + r.priority,
        "Topic: "@ + r.topic,
        "Text: "@ + r.text,
        "Description: "@ + r.desc,
        "Date Added: "@ + r.date_added,
        "Due: "@ + r.due,
        "Status: "@ + r.status,
        "Owner: "@ + r.owner,
        rule(),
    ]
}

/// The blocks of the first `n` rows, one after the other.
pub open spec fn todo_blocks(rows: Seq<TodoView>, n: nat) -> Seq<Seq<char>>
    decreases n,
{
    if n == 0 {
        Seq::empty()
    } else {
        todo_blocks(rows, (n - 1) as nat) + todo_block(rows[n - 1], n)
    }
}

/// The listing of the records: an empty line, the total, then one block for
/// each record, numbered from 1.
pub open spec fn listing(rows: Seq<TodoView>) -> Seq<Seq<char>> {
    seq![Seq::<char>::empty(), "Total todos: "@ + decimal(rows.len())] + todo_blocks(
        rows,
        rows.len(),
    )
}

/// The characters of each line.
pub open spec fn lines_of(lines: Seq<String>) -> Seq<Seq<char>> {
    lines.map_values(|s: String| s@)
}

/// `label` followed by `value`.
fn labelled(label: &str, value: &str) -> (res: String)
    ensures
        res@ == label@ + value@,
{
    let mut out = String::from_str(label);
    out.append(value);
    out
}

/// `label` followed by `n` in decimal.
fn counted(label: &str, n: usize) -> (res: String)
    ensures
        res@ == label@ + decimal(n as nat),
{
    let mut out = String::from_str(label);
    push_decimal(&mut out, n as u64);
    out
}

/// Appends the block of `todo`, the `number`th record, to `out`.
fn push_block(out: &mut Vec<String>, todo: &Todo, number: usize)
    ensures
        lines_of(final(out)@) == lines_of(old(out)@) + todo_block(todo@, number as nat),
{
    out.push(String::from_str("---------------"));
    out.push(counted("Todo #", number));
    out.push(counted("ID: ", todo.id));
    out.push(labelled("Priority: ", todo.priority.as_str()));
    out.push(labelled("Topic: ", todo.topic.as_str()));
    out.push(labelled("Text: ", todo.text.as_str()));
    out.push(labelled("Description: ", todo.desc.as_str()));
    out.push(labelled("Date Added: ", todo.date_added.as_str()));
    out.push(labelled("Due: ", todo.due.as_str()));
    out.push(labelled("Status: ", todo.status.as_str()));
    out.push(labelled("Owner: ", todo.owner.as_str()));
    out.push(String::from_str("---------------"));
    assert(lines_of(out@) =~= lines_of(old(out)@) + todo_block(todo@, number as nat));
}

/// The lines that list `todos`.
pub fn print_todos(todos: &Vec<Todo>) -> (lines: Vec<String>)
    ensures
        lines_of(lines@) == listing(views(todos@)),
{
    let ghost rows = views(todos@);
    let mut out: Vec<String> = Vec::new();
    out.push(String::new());
    out.push(counted("Total todos: ", todos.len()));
    let ghost head = lines_of(out@);
    assert(head =~= seq![Seq::<char>::empty(), "Total todos: "@ + decimal(rows.len())]);
    let mut k: usize = 0;
    while k < todos.len()
        invariant
            k <= todos.len(),
            rows == views(todos@),
            lines_of(out@) == head + todo_blocks(rows, k as nat),
        decreases todos.len() - k,
    {
        push_block(&mut out, &todos[k], k + 1);
        k += 1;
        assert(lines_of(out@) =~= head + todo_blocks(rows, k as nat));
    }
    out
}

/// What is said after a record was to be deleted: that it was, that there
/// was none with that identifier, or what went wrong.
pub open spec fn removal_text(outcome: Result<bool, TodoError>, id: int) -> Seq<char> {
    match outcome {
        Ok(true) => "✅ Todo deleted successfully!"@,
        Ok(false) => "❌ No todo found with id: "@ + signed_decimal(id),
        Err(e) => "Error deleting todo: "@ + error_text(e),
    }
}

/// What is said after a record's status was to be set: nothing where it was;
/// else that there was none with that identifier, or what went wrong.
pub open spec fn update_text(outcome: Result<bool, TodoError>, id: int) -> Option<Seq<char>> {
    match outcome {
        Ok(true) => None,
        Ok(false) => Some("❌ No todo found with id: "@ + signed_decimal(id)),
        Err(e) => Some("Error updating todo: "@ + error_text(e)),
    }
}

/// What is said after all records were cleared, `removed` of them.
pub open spec fn clear_text(removed: nat) -> Seq<char> {
    if removed > 0 {
        "✅ All todos cleared successfully!"@
    } else {
        "❌ No todos found."@
    }
}

/// What is said after the store was flushed of `removed` records.
pub open spec fn flush_text(removed: nat) -> Seq<Seq<char>> {
    seq![
        Seq::<char>::empty(),
        if removed > 0 {
            "✅ All todos cleared successfully!"@
        } else {
            "❌ No todos found, nothing to clear"@
        },
        Seq::<char>::empty(),
    ]
}

/// What each error is called when it is shown.
pub open spec fn error_text(e: TodoError) -> Seq<char> {
    match e {
        TodoError::StorageUnavailable => "the todo store cannot be opened or written"@,
        TodoError::ValidationError(Invalid::EmptyTitle) => "A todo needs a title."@,
        TodoError::ValidationError(Invalid::UnknownPriority) =>
            "Priority must be 'normal', 'medium', 'high', or 'low'."@,
        TodoError::ValidationError(Invalid::NoSelection) => "No todo selected"@,
        TodoError::CredentialMissing =>
            "No API key found. Please set one using the -k flag first."@,
        TodoError::UpstreamError => "the request to Gemini failed"@,
    }
}

/// The words for an error.
pub fn error_message(e: TodoError) -> (res: String)
    ensures
        res@ == error_text(e),
{
    match e {
        TodoError::StorageUnavailable => String::from_str(
            "the todo store cannot be opened or written",
        ),
        TodoError::ValidationError(Invalid::EmptyTitle) => String::from_str(
            "A todo needs a title.",
        ),
        TodoError::ValidationError(Invalid::UnknownPriority) => String::from_str(
            "Priority must be 'normal', 'medium', 'high', or 'low'.",
        ),
        TodoError::ValidationError(Invalid::NoSelection) => String::from_str("No todo selected"),
        TodoError::CredentialMissing => String::from_str(
            "No API key found. Please set one using the -k flag first.",
        ),
        TodoError::UpstreamError => String::from_str("the request to Gemini failed"),
    }
}

/// The line after a record was to be deleted.
pub fn removal_message(outcome: Result<bool, TodoError>, id: i32) -> (res: String)
    ensures
        res@ == removal_text(outcome, id as int),
{
    match outcome {
        Ok(true) => String::from_str("✅ Todo deleted successfully!"),
        Ok(false) => labelled("❌ No todo found with id: ", signed_decimal_text(id).as_str()),
        Err(e) => labelled("Error deleting todo: ", error_message(e).as_str()),
    }
}

/// The line after a record's status was to be set, if there is one.
pub fn update_message(outcome: Result<bool, TodoError>, id: i32) -> (res: Option<String>)
    ensures
        match res {
            Some(line) => update_text(outcome, id as int) == Some(line@),
            None => update_text(outcome, id as int) is None,
        },
{
    match outcome {
        Ok(true) => None,
        Ok(false) => Some(
            labelled("❌ No todo found with id: ", signed_decimal_text(id).as_str()),
        ),
        Err(e) => Some(labelled("Error updating todo: ", error_message(e).as_str())),
    }
}

/// The line after all records were cleared.
pub fn clear_message(removed: usize) -> (res: String)
    ensures
        res@ == clear_text(removed as nat),
{
    if removed > 0 {
        String::from_str("✅ All todos cleared successfully!")
    } else {
        String::from_str("❌ No todos found.")
    }
}

/// The lines after the store was flushed.
pub fn flush_message(removed: usize) -> (res: Vec<String>)
    ensures
        lines_of(res@) == flush_text(removed as nat),
{
    let mut out: Vec<String> = Vec::new();
    out.push(String::new());
    if removed > 0 {
        out.push(String::from_str("✅ All todos cleared successfully!"));
    } else {
        out.push(String::from_str("❌ No todos found, nothing to clear"));
    }
    out.push(String::new());
    assert(lines_of(out@) =~= flush_text(removed as nat));
    out
}

} // verus!
