//! The sheet that an export writes: a header row and one row for each record.

use vstd::prelude::*;
use crate::models::{Todo, TodoView, views};

verus! {

/// One cell of the sheet.
#[derive(Debug)]
pub enum Cell {
    Number(usize),
    Text(String),
}

/// A cell as contracts see it.
pub enum CellView {
    Number(nat),
    Text(Seq<char>),
}

impl View for Cell {
    type V = CellView;

    open spec fn view(&self) -> CellView {
        match *self {
            Cell::Number(n) => CellView::Number(n as nat),
            Cell::Text(s) => CellView::Text(s@),
        }
    }
}

/// The cells of a row as contracts see them.
pub open spec fn cells_of(row: Seq<Cell>) -> Seq<CellView> {
    row.map_values(|c: Cell| c@)
}

/// The rows of a sheet as contracts see them.
pub open spec fn sheet_of(rows: Seq<Vec<Cell>>) -> Seq<Seq<CellView>> {
    rows.map_values(|r: Vec<Cell>| cells_of(r@))
}

/// The nine column names.
pub open spec fn header_row() -> Seq<CellView> {
    seq![
        CellView::Text("ID"@),
        CellView::Text("PRIORITY"@),
        CellView::Text("TOPIC"@),
        CellView::Text("TODO"@),
        CellView::Text("DESCRIPTION"@),
        CellView::Text("CREATED"@),
        CellView::Text("DUE DATE"@),
        CellView::Text("STATUS"@),
        CellView::Text("OWNER"@),
    ]
}

/// The row of one record: its nine fields under the nine names, the
/// identifier as a number.
pub open spec fn record_row(r: TodoView) -> Seq<CellView> {
    seq![
        CellView::Number(r.id),
        CellView::Text(r.priority),
        CellView::Text(r.topic),
        CellView::Text(r.text),
        CellView::Text(r.desc),
        CellView::Text(r.date_added),
        CellView::Text(r.due),
        CellView::Text(r.status),
        CellView::Text(r.owner),
    ]
}

/// The sheet: the header, then the records in their order.
pub open spec fn sheet(rows: Seq<TodoView>) -> Seq<Seq<CellView>> {
    seq![header_row()] + rows.map_values(|r: TodoView| record_row(r))
}

/// A text cell.
fn text_cell(s: &str) -> (cell: Cell)
    ensures
        cell@ == CellView::Text(s@),
{
    Cell::Text(String::from_str(s))
}

/// The header row.
pub fn export_header() -> (row: Vec<Cell>)
    ensures
        cells_of(row@) == header_row(),
{
    let mut row: Vec<Cell> = Vec::new();
    row.push(text_cell("ID"));
    row.push(text_cell("PRIORITY"));
    row.push(text_cell("TOPIC"));
    row.push(text_cell("TODO"));
    row.push(text_cell("DESCRIPTION"));
    row.push(text_cell("CREATED"));
    row.push(text_cell("DUE DATE"));
    row.push(text_cell("STATUS"));
    row.push(text_cell("OWNER"));
    assert(cells_of(row@) =~= header_row());
    row
}

/// The row of one record.
pub fn export_row(todo: &Todo) -> (row: Vec<Cell>)
    ensures
        cells_of(row@) == record_row(todo@),
{
    let mut row: Vec<Cell> = Vec::new();
    row.push(Cell::Number(todo.id));
    row.push(text_cell(todo.priority.as_str()));
    row.push(text_cell(todo.topic.as_str()));
    row.push(text_cell(todo.text.as_str()));
    row.push(text_cell(todo.desc.as_str()));
    row.push(text_cell(todo.date_added.as_str()));
    row.push(text_cell(todo.due.as_str()));
    row.push(text_cell(todo.status.as_str()));
    row.push(text_cell(todo.owner.as_str()));
    assert(cells_of(row@) =~= record_row(todo@));
    row
}

/// The sheet that exports `todos`.
pub fn export_todos(todos: &Vec<Todo>) -> (rows: Vec<Vec<Cell>>)
    ensures
        sheet_of(rows@) == sheet(views(todos@)),
{
    let ghost records = views(todos@);
    let mut rows: Vec<Vec<Cell>> = Vec::new();
    rows.push(export_header());
    let mut k: usize = 0;
    while k < todos.len()
        invariant
            k <= todos.len(),
            records == views(todos@),
            rows.len() == k + 1,
            cells_of(rows[0]@) == header_row(),
            forall|i: int| 0 <= i < k ==> cells_of(#[trigger] rows[i + 1]@) == record_row(records[i]),
        decreases todos.len() - k,
    {
        rows.push(export_row(&todos[k]));
        k += 1;
    }
    assert forall|i: int| 0 <= i < rows.len() implies sheet_of(rows@)[i] == sheet(records)[i] by {
        if i > 0 {
            assert(cells_of(rows[(i - 1) + 1]@) == record_row(records[i - 1]));
        }
    }
    assert(sheet_of(rows@) =~= sheet(records));
    rows
}

} // verus!
