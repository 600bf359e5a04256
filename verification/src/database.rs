//! The record store: the table of todo records, the identifier it will assign
//! next, and the one credential it keeps.

use vstd::prelude::*;
use crate::error::TodoError;
use crate::models::{Todo, TodoView, views};
use crate::text::text_view;

verus! {

/// One more than the largest identifier the store assigns. Records are found
/// again by an `i32`, so no identifier may lie above `i32::MAX`.
pub const ID_LIMIT: usize = 2147483648;

/// What a path of the store's layout holds on disk.
#[derive(Debug, Clone, Copy, PartialEq, Eq, Structural)]
pub enum EntryKind {
    Missing,
    File,
    Directory,
}

/// What opening the store has to create.
#[derive(Debug, Clone, Copy, PartialEq, Eq, Structural)]
pub struct OpenPlan {
    pub create_directory: bool,
    pub create_file: bool,
}

/// Whether `rows` can be the rows of a table that assigns `next_id` next.
pub open spec fn rows_wf(rows: Seq<TodoView>, next_id: nat) -> bool {
    &&& 1 <= next_id <= ID_LIMIT
    &&& forall|i: int| 0 <= i < rows.len() ==> 1 <= (#[trigger] rows[i]).id < next_id
    &&& forall|i: int, j: int|
        0 <= i < j < rows.len() ==> (#[trigger] rows[i]).id < (#[trigger] rows[j]).id
}

/// The identifier that follows those of `rows`: one more than the last
/// row's, 1 where there is no row.
pub open spec fn next_after(rows: Seq<TodoView>) -> nat {
    if rows.len() == 0 {
        1
    } else {
        rows.last().id + 1
    }
}

/// The store as contracts see it.
pub struct Table {
    /// The records, in the order in which the store lists them.
    pub rows: Seq<TodoView>,
    /// The identifier that the next insert assigns.
    pub next_id: nat,
    /// The credential, if one is kept.
    pub apikey: Option<Seq<char>>,
}

impl Table {
    /// Identifiers start at 1, grow along the rows, and lie below `next_id`,
    /// which never passes `ID_LIMIT`.
    pub open spec fn wf(self) -> bool {
        rows_wf(self.rows, self.next_id)
    }

    /// The table of a store that was just created.
    pub open spec fn empty() -> Table {
        Table { rows: Seq::empty(), next_id: 1, apikey: None }
    }

    /// Whether some row has the identifier `id`.
    pub open spec fn has(self, id: int) -> bool {
        exists|i: int| 0 <= i < self.rows.len() && (#[trigger] self.rows[i]).id == id
    }

    /// The place of the row with identifier `id`, where there is one.
    pub open spec fn position(self, id: int) -> int {
        choose|i: int| 0 <= i < self.rows.len() && (#[trigger] self.rows[i]).id == id
    }

    /// Whether an insert still finds an identifier to assign.
    pub open spec fn has_room(self) -> bool {
        self.next_id < ID_LIMIT
    }

    /// The table after `t` was inserted: it comes last, under `next_id`.
    pub open spec fn insert(self, t: TodoView) -> Table {
        Table { rows: self.rows.push(t.with_id(self.next_id)), next_id: self.next_id + 1, ..self }
    }

    /// The table without the row whose identifier is `id`; the table itself
    /// where no row has it.
    pub open spec fn delete(self, id: int) -> Table {
        if self.has(id) {
            Table { rows: self.rows.remove(self.position(id)), ..self }
        } else {
            self
        }
    }

    /// The table in which the row with identifier `id` carries `status`.
    pub open spec fn set_status(self, id: int, status: Seq<char>) -> Table {
        Table {
            rows: Seq::new(
                self.rows.len(),
                |i: int| if self.rows[i].id == id {
                    self.rows[i].with_status(status)
                } else {
                    self.rows[i]
                },
            ),
            ..self
        }
    }

    /// The table without any row. The next identifier stays.
    pub open spec fn clear(self) -> Table {
        Table { rows: Seq::empty(), ..self }
    }

    /// The table in which `key` replaces whatever credential was kept.
    pub open spec fn set_apikey(self, key: Option<Seq<char>>) -> Table {
        Table { apikey: key, ..self }
    }
}

/// The record store.
pub struct DBtodo {
    todos: Vec<Todo>,
    next_id: usize,
    apikey: Option<String>,
}

impl View for DBtodo {
    type V = Table;

    closed spec fn view(&self) -> Table {
        Table {
            rows: views(self.todos@),
            next_id: self.next_id as nat,
            apikey: text_view(self.apikey),
        }
    }
}

/// What opening the store must create, given what its directory and its file
/// are on disk. A file in the directory's place, or a directory in the file's,
/// makes the store unavailable.
pub open spec fn open_plan(folder: EntryKind, file: EntryKind) -> Result<OpenPlan, TodoError> {
    if folder == EntryKind::File || file == EntryKind::Directory {
        Err(TodoError::StorageUnavailable)
    } else {
        Ok(
            OpenPlan {
                create_directory: folder == EntryKind::Missing,
                create_file: file == EntryKind::Missing,
            },
        )
    }
}

impl DBtodo {
    /// Whether the store's table is well formed.
    pub open spec fn wf(&self) -> bool {
        self@.wf()
    }

    /// Decides how to open the store from what is found at its two paths.
    pub fn plan_open(folder: EntryKind, file: EntryKind) -> (res: Result<OpenPlan, TodoError>)
        ensures
            res == open_plan(folder, file),
    {
        if folder == EntryKind::File || file == EntryKind::Directory {
            Err(TodoError::StorageUnavailable)
        } else {
            Ok(
                OpenPlan {
                    create_directory: folder == EntryKind::Missing,
                    create_file: file == EntryKind::Missing,
                },
            )
        }
    }

    /// A store without records or credential, which assigns 1 first.
    pub fn new() -> (db: DBtodo)
        ensures
            db.wf(),
            db@ == Table::empty(),
    {
        let db = DBtodo { todos: Vec::new(), next_id: 1, apikey: None };
        assert(db@.rows =~= Seq::empty());
        db
    }

    /// Rebuilds a store from what was kept of it. Rows whose identifiers do not
    /// grow, or an identifier outside `1 .. next_id`, or a `next_id` outside
    /// `1 ..= ID_LIMIT`, show a damaged store.
    pub fn restore(todos: Vec<Todo>, next_id: usize, apikey: Option<String>) -> (res: Result<
        DBtodo,
        TodoError,
    >)
        ensures
            match res {
                Ok(db) => db.wf() && db@.rows == views(todos@) && db@.next_id == next_id
                    && db@.apikey == text_view(apikey),
                Err(e) => e == TodoError::StorageUnavailable,
            },
            res is Ok <==> rows_wf(views(todos@), next_id as nat),
    {
        let ghost t = Table { rows: views(todos@), next_id: next_id as nat, apikey: None };
        if next_id < 1 || next_id > ID_LIMIT {
            return Err(TodoError::StorageUnavailable);
        }
        let mut last: usize = 0;
        let mut k: usize = 0;
        while k < todos.len()
            invariant
                k <= todos.len(),
                1 <= next_id <= ID_LIMIT,
                t.rows == views(todos@),
                t.next_id == next_id,
                last < next_id,
                k == 0 ==> last == 0,
                k > 0 ==> t.rows[k - 1].id == last,
                forall|i: int| 0 <= i < k ==> 1 <= (#[trigger] t.rows[i]).id <= last,
                forall|i: int, j: int|
                    0 <= i < j < k ==> (#[trigger] t.rows[i]).id < (#[trigger] t.rows[j]).id,
            decreases todos.len() - k,
        {
            let id: usize = todos[k].id;
            assert(t.rows[k as int].id == id);
            if id <= last || id >= next_id {
                assert(!t.wf()) by {
                    if t.wf() {
                        assert(1 <= t.rows[k as int].id < t.next_id);
                        lemma_last_is_reached(t, k as int, last as int);
                    }
                }
                return Err(TodoError::StorageUnavailable);
            }
            last = id;
            k += 1;
        }
        let db = DBtodo { todos, next_id, apikey };
        assert(db@.rows == t.rows);
        Ok(db)
    }

    /// Rebuilds a store from rows that were kept without the identifier to
    /// assign next: it is taken to follow the last row's. The rows must be
    /// such as `restore` accepts.
    pub fn adopt(todos: Vec<Todo>, apikey: Option<String>) -> (res: Result<DBtodo, TodoError>)
        ensures
            match res {
                Ok(db) => db.wf() && db@.rows == views(todos@) && db@.next_id == next_after(
                    views(todos@),
                ) && db@.apikey == text_view(apikey),
                Err(e) => e == TodoError::StorageUnavailable,
            },
            res is Ok <==> rows_wf(views(todos@), next_after(views(todos@))),
    {
        let n: usize = todos.len();
        if n == 0 {
            DBtodo::restore(todos, 1, apikey)
        } else {
            let last: usize = todos[n - 1].id;
            assert(views(todos@).last().id == last);
            if last >= ID_LIMIT {
                Err(TodoError::StorageUnavailable)
            } else {
                DBtodo::restore(todos, last + 1, apikey)
            }
        }
    }

    /// Inserts a copy of `todo` under the next identifier and returns that
    /// identifier. The identifier that `todo` came with is not used. Once every
    /// identifier is spent the store is unavailable and stays as it is.
    pub fn add_todo(&mut self, todo: &Todo) -> (res: Result<usize, TodoError>)
        requires
            old(self).wf(),
        ensures
            final(self).wf(),
            old(self)@.has_room() ==> res == Ok::<usize, TodoError>(old(self)@.next_id as usize)
                && final(self)@ == old(self)@.insert(todo@),
            !old(self)@.has_room() ==> res == Err::<usize, TodoError>(
                TodoError::StorageUnavailable,
            ) && final(self)@ == old(self)@,
    {
        if self.next_id >= ID_LIMIT {
            return Err(TodoError::StorageUnavailable);
        }
        let id: usize = self.next_id;
        let mut row = todo.clone();
        row.id = id;
        assert(row@ == todo@.with_id(id as nat));
        self.next_id = id + 1;
        self.todos.push(row);
        assert(self@.rows =~= old(self)@.rows.push(row@));
        Ok(id)
    }

    /// All records, in the store's order.
    pub fn get_todos(&self) -> (todos: Vec<Todo>)
        ensures
            views(todos@) == self@.rows,
    {
        let mut out: Vec<Todo> = Vec::new();
        let mut k: usize = 0;
        while k < self.todos.len()
            invariant
                k <= self.todos.len(),
                out.len() == k,
                forall|i: int| 0 <= i < k ==> (#[trigger] out[i])@ == self.todos[i]@,
            decreases self.todos.len() - k,
        {
            out.push(self.todos[k].clone());
            k += 1;
        }
        assert(views(out@) =~= self@.rows);
        out
    }

    /// The place of the record with identifier `id`, if there is one.
    fn find(&self, id: i32) -> (res: Option<usize>)
        requires
            self.wf(),
        ensures
            match res {
                Some(k) => k < self.todos.len() && self@.rows[k as int].id == id && self@.has(id as int)
                    && self@.position(id as int) == k,
                None => !self@.has(id as int),
            },
    {
        if id < 0 {
            return None;
        }
        let mut k: usize = 0;
        while k < self.todos.len()
            invariant
                k <= self.todos.len(),
                id >= 0,
                self.wf(),
                forall|i: int| 0 <= i < k ==> (#[trigger] self@.rows[i]).id != id,
            decreases self.todos.len() - k,
        {
            if self.todos[k].id == id as usize {
                assert(self@.rows[k as int].id == id);
                assert(self@.has(id as int));
                assert(self@.position(id as int) == k) by {
                    let p = self@.position(id as int);
                    if p < k {
                        assert(self@.rows[p].id < self@.rows[k as int].id);
                    } else if p > k {
                        assert(self@.rows[k as int].id < self@.rows[p].id);
                    }
                }
                return Some(k);
            }
            k += 1;
        }
        None
    }

    /// Removes the record with identifier `id` and says whether there was one.
    /// Where there is none, the store stays as it is; that is an answer, not
    /// an error.
    pub fn delete_todo(&mut self, id: i32) -> (res: Result<bool, TodoError>)
        requires
            old(self).wf(),
        ensures
            final(self).wf(),
            final(self)@ == old(self)@.delete(id as int),
            res == Ok::<bool, TodoError>(old(self)@.has(id as int)),
    {
        match self.find(id) {
            Some(k) => {
                self.todos.remove(k);
                assert(self@.rows =~= old(self)@.rows.remove(k as int));
                Ok(true)
            },
            None => Ok(false),
        }
    }

    /// Gives the record with identifier `id` the label `status` and says
    /// whether there was such a record. Where there is none, the store stays
    /// as it is; that is an answer, not an error.
    pub fn update_todo(&mut self, id: i32, status: String) -> (res: Result<bool, TodoError>)
        requires
            old(self).wf(),
        ensures
            final(self).wf(),
            final(self)@ == old(self)@.set_status(id as int, status@),
            res == Ok::<bool, TodoError>(old(self)@.has(id as int)),
    {
        match self.find(id) {
            Some(k) => {
                let mut row = self.todos[k].clone();
                row.status = status;
                self.todos[k] = row;
                assert(self@.rows =~= old(self)@.set_status(id as int, status@).rows);
                Ok(true)
            },
            None => {
                assert(self@.rows =~= old(self)@.set_status(id as int, status@).rows);
                Ok(false)
            },
        }
    }

    /// Removes every record and returns how many there were.
    pub fn clear_all_todos(&mut self) -> (removed: usize)
        requires
            old(self).wf(),
        ensures
            final(self).wf(),
            final(self)@ == old(self)@.clear(),
            removed == old(self)@.rows.len(),
    {
        let removed: usize = self.todos.len();
        self.todos.clear();
        assert(self@.rows =~= Seq::empty());
        removed
    }

    /// Removes every record and returns how many there were.
    pub fn flush_db(&mut self) -> (removed: usize)
        requires
            old(self).wf(),
        ensures
            final(self).wf(),
            final(self)@ == old(self)@.clear(),
            removed == old(self)@.rows.len(),
    {
        self.clear_all_todos()
    }

    /// Drops the credential that was kept, then keeps `apikey`. Without a key
    /// nothing is kept and the answer is `CredentialMissing`.
    pub fn set_api_credentials(&mut self, apikey: Option<String>) -> (res: Result<(), TodoError>)
        ensures
            final(self).wf() == old(self).wf(),
            final(self)@ == old(self)@.set_apikey(text_view(apikey)),
            res == if apikey is Some {
                Ok::<(), TodoError>(())
            } else {
                Err::<(), TodoError>(TodoError::CredentialMissing)
            },
    {
        let given: bool = apikey.is_some();
        self.apikey = apikey;
        if given {
            Ok(())
        } else {
            Err(TodoError::CredentialMissing)
        }
    }

    /// The credential, where one is kept and is not empty.
    pub fn get_api_credentials(&self) -> (res: Result<String, TodoError>)
        ensures
            match res {
                Ok(k) => self@.apikey == Some(k@) && k@.len() > 0,
                Err(e) => e == TodoError::CredentialMissing && (self@.apikey is None
                    || self@.apikey == Some(Seq::<char>::empty())),
            },
    {
        match &self.apikey {
            Some(k) => {
                if k.as_str().unicode_len() == 0 {
                    assert(k@ =~= Seq::<char>::empty());
                    Err(TodoError::CredentialMissing)
                } else {
                    Ok(k.clone())
                }
            },
            None => Err(TodoError::CredentialMissing),
        }
    }

    /// The identifier that the next insert assigns.
    pub fn next_id(&self) -> (id: usize)
        ensures
            id == self@.next_id,
    {
        self.next_id
    }

    /// How many records there are.
    pub fn len(&self) -> (n: usize)
        ensures
            n == self@.rows.len(),
    {
        self.todos.len()
    }

    /// The credential as it is kept, empty or not.
    pub fn stored_credential(&self) -> (key: &Option<String>)
        ensures
            self@.apikey == text_view(*key),
    {
        &self.apikey
    }
}

/// What the caller is told once the store's file was to be written after an
/// operation: the operation's answer, unless the operation succeeded and the
/// file could not be written, when the storage is unavailable.
pub open spec fn settled<T>(answer: Result<T, TodoError>, written: bool) -> Result<T, TodoError> {
    if answer is Ok && !written {
        Err(TodoError::StorageUnavailable)
    } else {
        answer
    }
}

/// Whether the store's file is to be written after an operation with this
/// answer: after a success, and not after a failure, which changed nothing.
pub fn must_write<T>(answer: &Result<T, TodoError>) -> (res: bool)
    ensures
        res == (*answer is Ok),
{
    answer.is_ok()
}

/// The answer to hand on once the store's file was to be written; `written`
/// says whether it was.
pub fn settle<T>(answer: Result<T, TodoError>, written: bool) -> (res: Result<T, TodoError>)
    ensures
        res == settled(answer, written),
{
    match answer {
        Ok(value) => if written {
            Ok(value)
        } else {
            Err(TodoError::StorageUnavailable)
        },
        Err(e) => Err(e),
    }
}

/// In a well-formed table whose first `k` rows have identifiers up to `last`,
/// with `last` the identifier of row `k - 1` (or 0 when `k` is 0), row `k` lies
/// above `last`.
proof fn lemma_last_is_reached(t: Table, k: int, last: int)
    requires
        t.wf(),
        0 <= k < t.rows.len(),
        k == 0 ==> last == 0,
        k > 0 ==> t.rows[k - 1].id == last,
    ensures
        t.rows[k].id > last,
{
    if k > 0 {
        assert(t.rows[k - 1].id < t.rows[k].id);
    }
}

/// One change to a table.
pub enum Change {
    Insert(TodoView),
    Delete(int),
    SetStatus(int, Seq<char>),
    Clear,
    SetApikey(Option<Seq<char>>),
}

impl Table {
    /// The table after one change. An insert that finds no identifier leaves
    /// the table as it is.
    pub open spec fn apply(self, change: Change) -> Table {
        match change {
            Change::Insert(t) => if self.has_room() {
                self.insert(t)
            } else {
                self
            },
            Change::Delete(id) => self.delete(id),
            Change::SetStatus(id, status) => self.set_status(id, status),
            Change::Clear => self.clear(),
            Change::SetApikey(key) => self.set_apikey(key),
        }
    }

    /// The table after a run of changes, the first of them applied first.
    pub open spec fn apply_all(self, changes: Seq<Change>) -> Table
        decreases changes.len(),
    {
        if changes.len() == 0 {
            self
        } else {
            self.apply_all(changes.drop_last()).apply(changes.last())
        }
    }
}

/// An insert into a table with room assigns `next_id`: an identifier that no
/// row has, above the identifier of every row. The new row comes last, the
/// rows before it stay, and the table stays well formed.
pub proof fn lemma_insert_assigns_fresh_id(t: Table, r: TodoView)
    requires
        t.wf(),
        t.has_room(),
    ensures
        t.insert(r).wf(),
        t.insert(r).rows.len() == t.rows.len() + 1,
        t.insert(r).rows.last() == r.with_id(t.next_id),
        t.insert(r).rows.drop_last() == t.rows,
        !t.has(t.next_id as int),
        forall|i: int| 0 <= i < t.rows.len() ==> (#[trigger] t.rows[i]).id < t.next_id,
        t.insert(r).next_id == t.next_id + 1,
{
    assert(t.insert(r).rows.drop_last() =~= t.rows);
}

/// No change breaks a well-formed table or lowers the identifier it assigns
/// next.
pub proof fn lemma_apply_keeps_order(t: Table, change: Change)
    requires
        t.wf(),
    ensures
        t.apply(change).wf(),
        t.apply(change).next_id >= t.next_id,
{
    match change {
        Change::Delete(id) => {
            if t.has(id) {
                let p = t.position(id);
                let rows = t.rows.remove(p);
                assert forall|i: int| 0 <= i < rows.len() implies 1 <= (#[trigger] rows[i]).id
                    < t.next_id by {
                    if i < p {
                        assert(rows[i] == t.rows[i]);
                    } else {
                        assert(rows[i] == t.rows[i + 1]);
                    }
                }
                assert forall|i: int, j: int| 0 <= i < j < rows.len() implies (#[trigger] rows[i]).id
                    < (#[trigger] rows[j]).id by {
                    let a = if i < p { i } else { i + 1 };
                    let b = if j < p { j } else { j + 1 };
                    assert(rows[i] == t.rows[a]);
                    assert(rows[j] == t.rows[b]);
                }
            }
        },
        _ => {},
    }
}

/// Through any run of changes a well-formed table stays well formed, and the
/// identifier it assigns next never falls.
pub proof fn lemma_apply_all_keeps_order(t: Table, changes: Seq<Change>)
    requires
        t.wf(),
    ensures
        t.apply_all(changes).wf(),
        t.apply_all(changes).next_id >= t.next_id,
    decreases changes.len(),
{
    if changes.len() > 0 {
        lemma_apply_all_keeps_order(t, changes.drop_last());
        lemma_apply_keeps_order(t.apply_all(changes.drop_last()), changes.last());
    }
}

/// Identifiers are never assigned twice: whatever changes lie between two
/// inserts into one store, deletions and clearing among them, the later
/// insert assigns an identifier above the one that the earlier assigned.
pub proof fn lemma_later_insert_gets_greater_id(
    t: Table,
    first: TodoView,
    between: Seq<Change>,
    second: TodoView,
)
    requires
        t.wf(),
        t.has_room(),
        t.insert(first).apply_all(between).has_room(),
    ensures
        t.insert(first).rows.last().id == t.next_id,
        t.insert(first).apply_all(between).insert(second).rows.last().id > t.next_id,
{
    lemma_insert_assigns_fresh_id(t, first);
    lemma_apply_all_keeps_order(t.insert(first), between);
}

/// Deleting an identifier that no row has changes nothing: the rows, and so
/// their number, stay.
pub proof fn lemma_delete_absent_changes_nothing(t: Table, id: int)
    requires
        !t.has(id),
    ensures
        t.delete(id) == t,
        t.delete(id).rows.len() == t.rows.len(),
{
}

/// Deleting the identifier of a row removes that row and no other: one row
/// fewer, no row with that identifier left, and every other row still there,
/// in the order it had.
pub proof fn lemma_delete_removes_one_row(t: Table, id: int)
    requires
        t.wf(),
        t.has(id),
    ensures
        t.delete(id).rows.len() == t.rows.len() - 1,
        !t.delete(id).has(id),
        forall|i: int| 0 <= i < t.position(id) ==> t.delete(id).rows[i] == t.rows[i],
        forall|i: int|
            t.position(id) <= i < t.rows.len() - 1 ==> t.delete(id).rows[i] == t.rows[i + 1],
        t.delete(id).next_id == t.next_id,
        t.delete(id).apikey == t.apikey,
{
    let p = t.position(id);
    let rows = t.delete(id).rows;
    assert forall|i: int| 0 <= i < rows.len() implies (#[trigger] rows[i]).id != id by {
        if i < p {
            assert(rows[i] == t.rows[i]);
            assert(t.rows[i].id < t.rows[p].id);
        } else {
            assert(rows[i] == t.rows[i + 1]);
            assert(t.rows[p].id < t.rows[i + 1].id);
        }
    }
}

/// Whether a row has another identifier than `id`.
pub open spec fn other_than(id: int) -> spec_fn(TodoView) -> bool {
    |r: TodoView| r.id != id
}

/// Rows whose identifiers grow, without the one at `p`, are the rows that have
/// another identifier than it; where none has `id`, all of them are.
proof fn lemma_filter_by_id(rows: Seq<TodoView>, id: int, p: int)
    requires
        forall|i: int, j: int|
            0 <= i < j < rows.len() ==> (#[trigger] rows[i]).id < (#[trigger] rows[j]).id,
        0 <= p < rows.len() ==> rows[p].id == id,
        !(0 <= p < rows.len()) ==> forall|i: int| 0 <= i < rows.len() ==> (#[trigger] rows[i]).id != id,
    ensures
        rows.filter(other_than(id)) == if 0 <= p < rows.len() {
            rows.remove(p)
        } else {
            rows
        },
    decreases rows.len(),
{
    reveal(Seq::filter);
    if rows.len() > 0 {
        let front = rows.drop_last();
        let last = rows.last();
        assert forall|i: int, j: int| 0 <= i < j < front.len() implies (#[trigger] front[i]).id < (
        #[trigger] front[j]).id by {
            assert(front[i] == rows[i] && front[j] == rows[j]);
        }
        if 0 <= p < rows.len() - 1 {
            assert(front[p] == rows[p]);
            lemma_filter_by_id(front, id, p);
            assert(rows[p].id < rows[rows.len() - 1].id);
            assert(front.remove(p).push(last) =~= rows.remove(p));
        } else {
            assert forall|i: int| 0 <= i < front.len() implies (#[trigger] front[i]).id != id by {
                assert(front[i] == rows[i]);
                if p == rows.len() - 1 {
                    assert(rows[i].id < rows[p].id);
                }
            }
            lemma_filter_by_id(front, id, -1);
            if p == rows.len() - 1 {
                assert(front =~= rows.remove(p));
            } else {
                assert(rows[rows.len() - 1].id != id);
                assert(front.push(last) =~= rows);
            }
        }
    } else {
        assert(rows.filter(other_than(id)) =~= rows);
    }
}

/// Deleting an identifier leaves exactly the rows with another identifier,
/// in their order.
pub proof fn lemma_delete_keeps_the_others(t: Table, id: int)
    requires
        t.wf(),
    ensures
        t.delete(id).rows == t.rows.filter(other_than(id)),
{
    if t.has(id) {
        lemma_filter_by_id(t.rows, id, t.position(id));
    } else {
        lemma_filter_by_id(t.rows, id, -1);
    }
}

/// Setting the status of an identifier changes the status of the row that has
/// it and nothing else: every other field of that row, every other row, the
/// number and order of the rows, the next identifier and the credential stay.
pub proof fn lemma_set_status_changes_only_status(t: Table, id: int, status: Seq<char>)
    ensures
        t.set_status(id, status).rows.len() == t.rows.len(),
        forall|i: int|
            0 <= i < t.rows.len() && t.rows[i].id != id ==> (#[trigger] t.set_status(
                id,
                status,
            ).rows[i]) == t.rows[i],
        forall|i: int|
            0 <= i < t.rows.len() && t.rows[i].id == id ==> (#[trigger] t.set_status(
                id,
                status,
            ).rows[i]) == (TodoView { status: status, ..t.rows[i] }),
        t.set_status(id, status).next_id == t.next_id,
        t.set_status(id, status).apikey == t.apikey,
        !t.has(id) ==> t.set_status(id, status) == t,
{
    if !t.has(id) {
        assert(t.set_status(id, status).rows =~= t.rows);
    }
}

/// A cleared table lists nothing, and an insert after clearing does not go
/// back to an identifier that a cleared row had: it assigns the identifier
/// that was next before, which lies above all of them.
pub proof fn lemma_clear_then_insert(t: Table, r: TodoView)
    requires
        t.wf(),
        t.has_room(),
    ensures
        t.clear().rows.len() == 0,
        t.clear().wf(),
        t.clear().insert(r).rows == seq![r.with_id(t.next_id)],
        forall|i: int| 0 <= i < t.rows.len() ==> (#[trigger] t.rows[i]).id < t.next_id,
{
    assert(t.clear().insert(r).rows =~= seq![r.with_id(t.next_id)]);
}

} // verus!
