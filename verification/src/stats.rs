//! How many records there are, and how many carry each of the three usual
//! status labels.

use vstd::prelude::*;
use crate::models::{Todo, TodoView, views};
use crate::text::same_text;

verus! {

/// The counts that the browser shows under the table.
#[derive(Debug, Clone, Copy, PartialEq, Eq, Structural)]
pub struct Stats {
    pub total: usize,
    pub done: usize,
    pub ongoing: usize,
    pub pending: usize,
}

/// The rows that carry the status `label`.
pub open spec fn rows_with_status(rows: Seq<TodoView>, label: Seq<char>) -> Seq<TodoView> {
    rows.filter(|r: TodoView| r.status == label)
}

/// Counts the records in all and those that are "Done", "Ongoing" and
/// "Pending".
pub fn calculate_stats(todos: &[Todo]) -> (stats: Stats)
    ensures
        stats.total == todos@.len(),
        stats.done == rows_with_status(views(todos@), "Done"@).len(),
        stats.ongoing == rows_with_status(views(todos@), "Ongoing"@).len(),
        stats.pending == rows_with_status(views(todos@), "Pending"@).len(),
{
    let ghost rows = views(todos@);
    let mut done: usize = 0;
    let mut ongoing: usize = 0;
    let mut pending: usize = 0;
    let mut k: usize = 0;
    proof {
        lemma_count_step(rows, "Done"@, 0);
        lemma_count_step(rows, "Ongoing"@, 0);
        lemma_count_step(rows, "Pending"@, 0);
    }
    while k < todos.len()
        invariant
            k <= todos.len(),
            rows == views(todos@),
            done == rows_with_status(rows.take(k as int), "Done"@).len(),
            ongoing == rows_with_status(rows.take(k as int), "Ongoing"@).len(),
            pending == rows_with_status(rows.take(k as int), "Pending"@).len(),
            done <= k,
            ongoing <= k,
            pending <= k,
        decreases todos.len() - k,
    {
        proof {
            lemma_count_step(rows, "Done"@, k as int + 1);
            lemma_count_step(rows, "Ongoing"@, k as int + 1);
            lemma_count_step(rows, "Pending"@, k as int + 1);
        }
        let status = todos[k].status.as_str();
        assert(status@ == rows[k as int].status);
        if same_text(status, "Done") {
            done += 1;
        }
        if same_text(status, "Ongoing") {
            ongoing += 1;
        }
        if same_text(status, "Pending") {
            pending += 1;
        }
        k += 1;
    }
    assert(rows.take(k as int) =~= rows);
    Stats { total: todos.len(), done, ongoing, pending }
}

/// The rows with a label among the first `n` are those among the first
/// `n - 1`, and row `n - 1` after them if it carries the label.
proof fn lemma_count_step(rows: Seq<TodoView>, label: Seq<char>, n: int)
    requires
        0 <= n <= rows.len(),
    ensures
        n == 0 ==> rows_with_status(rows.take(n), label).len() == 0,
        n > 0 ==> rows_with_status(rows.take(n), label) == if rows[n - 1].status == label {
            rows_with_status(rows.take(n - 1), label).push(rows[n - 1])
        } else {
            rows_with_status(rows.take(n - 1), label)
        },
{
    reveal(Seq::filter);
    if n > 0 {
        assert(rows.take(n).drop_last() =~= rows.take(n - 1));
    }
}

} // verus!
