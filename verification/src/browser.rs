//! The interactive browser: a copy of the records, a selection, and at most
//! one overlay. It decides; whoever drives it reads the keys, draws, and
//! carries its requests to the store.

use vstd::prelude::*;
use crate::database::{DBtodo, ID_LIMIT, Table};
use crate::error::{Invalid, TodoError};
use crate::models::{Todo, TodoView, views};

verus! {

/// A key press, as far as the browser tells keys apart.
#[derive(Debug, Clone, Copy, PartialEq, Eq, Structural)]
pub enum Key {
    Up,
    Down,
    Enter,
    Esc,
    Char(char),
    Other,
}

/// What lies over the table.
#[derive(Debug, Clone, Copy, PartialEq, Eq, Structural)]
pub enum Overlay {
    Normal,
    ViewingDetail,
    ConfirmingDelete,
    ChoosingStatus,
}

/// What the browser asks of its driver after a key.
#[derive(Debug)]
pub enum Action {
    /// Nothing but to draw again.
    Stay,
    /// End the loop.
    Quit,
    /// Delete this record in the store, then report with
    /// `App::delete_current_todo`.
    Delete { id: usize },
    /// Set this record's status in the store, then report with
    /// `App::change_todo_status`.
    SetStatus { id: usize, status: String },
}

/// An `Action` as contracts see it.
pub enum ActionView {
    Stay,
    Quit,
    Delete { id: nat },
    SetStatus { id: nat, status: Seq<char> },
}

impl View for Action {
    type V = ActionView;

    open spec fn view(&self) -> ActionView {
        match *self {
            Action::Stay => ActionView::Stay,
            Action::Quit => ActionView::Quit,
            Action::Delete { id } => ActionView::Delete { id: id as nat },
            Action::SetStatus { id, status } => ActionView::SetStatus {
                id: id as nat,
                status: status@,
            },
        }
    }
}

/// The status label that a key chooses, for the keys that choose one.
pub open spec fn status_for(c: char) -> Option<Seq<char>> {
    if c == 'p' {
        Some("Pending"@)
    } else if c == 'f' {
        Some("Done"@)
    } else if c == 'o' {
        Some("Ongoing"@)
    } else {
        None
    }
}

/// The browser as contracts see it.
pub struct Browser {
    /// The copy of the records.
    pub rows: Seq<TodoView>,
    /// The place of the selected row.
    pub selected: Option<int>,
    pub overlay: Overlay,
    /// The record that the detail view shows.
    pub detail: Option<TodoView>,
}

impl Browser {
    /// A row is selected exactly when there are rows, and it is one of them;
    /// an overlay lies only over a selected row; the detail view, and only
    /// it, shows that row.
    pub open spec fn wf(self) -> bool {
        &&& self.rows.len() == 0 <==> self.selected is None
        &&& self.selected is Some ==> 0 <= self.selected->0 < self.rows.len()
        &&& self.overlay != Overlay::Normal ==> self.selected is Some
        &&& self.overlay == Overlay::ViewingDetail <==> self.detail is Some
        &&& self.detail is Some ==> self.detail->0 == self.rows[self.selected->0]
    }

    /// The browser as it starts on `rows`: the first row selected if there is
    /// one, no overlay.
    pub open spec fn start(rows: Seq<TodoView>) -> Browser {
        Browser {
            rows,
            selected: if rows.len() == 0 {
                None
            } else {
                Some(0)
            },
            overlay: Overlay::Normal,
            detail: None,
        }
    }

    /// The selection one row down, the first row after the last. Under an
    /// overlay the selection stays.
    pub open spec fn move_down(self) -> Browser {
        match self.selected {
            Some(i) if self.overlay == Overlay::Normal => Browser {
                selected: Some(
                    if i + 1 >= self.rows.len() {
                        0
                    } else {
                        i + 1
                    },
                ),
                ..self
            },
            _ => self,
        }
    }

    /// The selection one row up, the last row before the first. Under an
    /// overlay the selection stays.
    pub open spec fn move_up(self) -> Browser {
        match self.selected {
            Some(i) if self.overlay == Overlay::Normal => Browser {
                selected: Some(
                    if i <= 0 {
                        self.rows.len() - 1
                    } else {
                        i - 1
                    },
                ),
                ..self
            },
            _ => self,
        }
    }

    /// The detail view opened on the selected row; nothing without a
    /// selection or under an overlay.
    pub open spec fn open_detail(self) -> Browser {
        match self.selected {
            Some(i) if self.overlay == Overlay::Normal => Browser {
                overlay: Overlay::ViewingDetail,
                detail: Some(self.rows[i]),
                ..self
            },
            _ => self,
        }
    }

    /// The given overlay opened; nothing without a selection or under an
    /// overlay.
    pub open spec fn open_overlay(self, overlay: Overlay) -> Browser {
        if self.selected is Some && self.overlay == Overlay::Normal {
            Browser { overlay, ..self }
        } else {
            self
        }
    }

    /// No overlay.
    pub open spec fn close(self) -> Browser {
        Browser { overlay: Overlay::Normal, detail: None, ..self }
    }

    /// The detail view closed, if it is open; any other overlay stays.
    pub open spec fn close_detail(self) -> Browser {
        if self.overlay == Overlay::ViewingDetail {
            self.close()
        } else {
            self
        }
    }

    /// The browser after a key.
    pub open spec fn after_key(self, key: Key) -> Browser {
        match self.overlay {
            Overlay::Normal => {
                if key == Key::Down || key == Key::Char('j') {
                    self.move_down()
                } else if key == Key::Up || key == Key::Char('k') {
                    self.move_up()
                } else if key == Key::Enter {
                    self.open_detail()
                } else if key == Key::Char('d') {
                    self.open_overlay(Overlay::ConfirmingDelete)
                } else if key == Key::Char('s') {
                    self.open_overlay(Overlay::ChoosingStatus)
                } else {
                    self
                }
            },
            Overlay::ViewingDetail => {
                if key == Key::Enter || key == Key::Esc {
                    self.close()
                } else {
                    self
                }
            },
            Overlay::ConfirmingDelete => {
                if key == Key::Char('n') {
                    self.close()
                } else {
                    self
                }
            },
            Overlay::ChoosingStatus => {
                if key == Key::Esc {
                    self.close()
                } else {
                    self
                }
            },
        }
    }

    /// What the browser asks of its driver after a key.
    pub open spec fn request(self, key: Key) -> ActionView {
        match (self.overlay, key, self.selected) {
            (Overlay::Normal, Key::Char(c), _) => if c == 'q' {
                ActionView::Quit
            } else {
                ActionView::Stay
            },
            (Overlay::ConfirmingDelete, Key::Char(c), Some(i)) => if c == 'y' {
                ActionView::Delete { id: self.rows[i].id }
            } else {
                ActionView::Stay
            },
            (Overlay::ChoosingStatus, Key::Char(c), Some(i)) => match status_for(c) {
                Some(status) => ActionView::SetStatus { id: self.rows[i].id, status },
                None => ActionView::Stay,
            },
            _ => ActionView::Stay,
        }
    }

    /// The browser after the store answered a request to delete the selected
    /// record, with whether it held the record or with an error: the overlay
    /// is closed; unless the store failed, the selected row is gone and the
    /// selection rests on the row that took its place, on the last row if none
    /// did, on nothing if no row is left.
    pub open spec fn after_delete(self, outcome: Result<bool, TodoError>) -> Browser {
        match self.selected {
            Some(i) => if outcome is Err {
                self.close()
            } else {
                let rows = self.rows.remove(i);
                Browser {
                    rows,
                    selected: if rows.len() == 0 {
                        None
                    } else if i < rows.len() {
                        Some(i)
                    } else {
                        Some(rows.len() - 1)
                    },
                    overlay: Overlay::Normal,
                    detail: None,
                }
            },
            None => self.close(),
        }
    }

    /// What the browser answers once a deletion was reported: the store's
    /// error, if it failed on a selected record; else success.
    pub open spec fn delete_answer(self, outcome: Result<bool, TodoError>) -> Result<(), TodoError> {
        match (self.selected, outcome) {
            (Some(_), Err(e)) => Err(e),
            _ => Ok(()),
        }
    }

    /// The browser after the store answered a request to set the selected
    /// record's status: the overlay is closed; unless the store failed, the
    /// selected row carries `status`. The selection stays.
    pub open spec fn after_status(self, status: Seq<char>, outcome: Result<bool, TodoError>) -> Browser {
        match self.selected {
            Some(i) => if outcome is Err {
                self.close()
            } else {
                Browser {
                    rows: self.rows.update(i, self.rows[i].with_status(status)),
                    overlay: Overlay::Normal,
                    detail: None,
                    ..self
                }
            },
            None => self.close(),
        }
    }

    /// What the browser answers once a change of status was reported: that
    /// nothing is selected, where nothing is; else the store's error, if it
    /// failed; else success.
    pub open spec fn status_answer(self, outcome: Result<bool, TodoError>) -> Result<(), TodoError> {
        match (self.selected, outcome) {
            (None, _) => Err(TodoError::ValidationError(Invalid::NoSelection)),
            (Some(_), Err(e)) => Err(e),
            (Some(_), Ok(_)) => Ok(()),
        }
    }

    /// The browser after the same key was pressed `n` times.
    pub open spec fn pressed(self, key: Key, n: nat) -> Browser
        decreases n,
    {
        if n == 0 {
            self
        } else {
            self.pressed(key, (n - 1) as nat).after_key(key)
        }
    }
}

/// The browser.
pub struct App {
    todos: Vec<Todo>,
    selected: Option<usize>,
    overlay: Overlay,
    selected_todo: Option<Todo>,
}

impl View for App {
    type V = Browser;

    closed spec fn view(&self) -> Browser {
        Browser {
            rows: views(self.todos@),
            selected: match self.selected {
                Some(i) => Some(i as int),
                None => None,
            },
            overlay: self.overlay,
            detail: match self.selected_todo {
                Some(t) => Some(t@),
                None => None,
            },
        }
    }
}

impl App {
    /// Whether the browser's state is well formed.
    pub open spec fn wf(&self) -> bool {
        self@.wf()
    }

    /// A browser on `todos`: the first record selected if there is one, no
    /// overlay.
    pub fn new(todos: Vec<Todo>) -> (app: App)
        ensures
            app.wf(),
            app@ == Browser::start(views(todos@)),
    {
        let selected = if todos.len() == 0 {
            None
        } else {
            Some(0)
        };
        App { todos, selected, overlay: Overlay::Normal, selected_todo: None }
    }

    /// Moves the selection one row down, to the first row after the last.
    pub fn next(&mut self)
        requires
            old(self).wf(),
        ensures
            final(self).wf(),
            final(self)@ == old(self)@.move_down(),
    {
        match (self.selected, self.overlay) {
            (Some(i), Overlay::Normal) => {
                assert(i < self.todos.len());
                if i + 1 >= self.todos.len() {
                    self.selected = Some(0);
                } else {
                    self.selected = Some(i + 1);
                }
            },
            _ => {},
        }
    }

    /// Moves the selection one row up, to the last row before the first.
    pub fn previous(&mut self)
        requires
            old(self).wf(),
        ensures
            final(self).wf(),
            final(self)@ == old(self)@.move_up(),
    {
        match (self.selected, self.overlay) {
            (Some(i), Overlay::Normal) => {
                if i == 0 {
                    self.selected = Some(self.todos.len() - 1);
                } else {
                    self.selected = Some(i - 1);
                }
            },
            _ => {},
        }
    }

    /// Opens the detail view on the selected record, if one is selected.
    pub fn select_current(&mut self)
        requires
            old(self).wf(),
        ensures
            final(self).wf(),
            final(self)@ == old(self)@.open_detail(),
    {
        match (self.selected, self.overlay) {
            (Some(i), Overlay::Normal) => {
                self.selected_todo = Some(self.todos[i].clone());
                self.overlay = Overlay::ViewingDetail;
            },
            _ => {},
        }
    }

    /// Closes the detail view, if it is open. Any other overlay stays open.
    pub fn close_modal(&mut self)
        requires
            old(self).wf(),
        ensures
            final(self).wf(),
            final(self)@ == old(self)@.close_detail(),
    {
        match self.overlay {
            Overlay::ViewingDetail => {
                self.overlay = Overlay::Normal;
                self.selected_todo = None;
            },
            _ => {},
        }
    }

    /// Closes whatever overlay is open.
    fn close_overlay(&mut self)
        requires
            old(self).wf(),
        ensures
            final(self).wf(),
            final(self)@ == old(self)@.close(),
    {
        self.overlay = Overlay::Normal;
        self.selected_todo = None;
    }

    /// Opens `overlay` over the selected record, if one is selected.
    fn open(&mut self, overlay: Overlay)
        requires
            old(self).wf(),
            overlay == Overlay::ConfirmingDelete || overlay == Overlay::ChoosingStatus,
        ensures
            final(self).wf(),
            final(self)@ == old(self)@.open_overlay(overlay),
    {
        match (self.selected, self.overlay) {
            (Some(_), Overlay::Normal) => {
                self.overlay = overlay;
            },
            _ => {},
        }
    }

    /// Takes one key: changes the browser as the key asks and returns what the
    /// driver must do next. A request to the store leaves the browser as it
    /// is until the store's answer is reported.
    pub fn handle_key(&mut self, key: Key) -> (action: Action)
        requires
            old(self).wf(),
        ensures
            final(self).wf(),
            final(self)@ == old(self)@.after_key(key),
            action@ == old(self)@.request(key),
    {
        match self.overlay {
            Overlay::Normal => {
                match key {
                    Key::Down => {
                        self.next();
                        Action::Stay
                    },
                    Key::Up => {
                        self.previous();
                        Action::Stay
                    },
                    Key::Enter => {
                        self.select_current();
                        Action::Stay
                    },
                    Key::Char(c) => {
                        if c == 'j' {
                            self.next();
                            Action::Stay
                        } else if c == 'k' {
                            self.previous();
                            Action::Stay
                        } else if c == 'd' {
                            self.open(Overlay::ConfirmingDelete);
                            Action::Stay
                        } else if c == 's' {
                            self.open(Overlay::ChoosingStatus);
                            Action::Stay
                        } else if c == 'q' {
                            Action::Quit
                        } else {
                            Action::Stay
                        }
                    },
                    _ => Action::Stay,
                }
            },
            Overlay::ViewingDetail => {
                match key {
                    Key::Enter => {
                        self.close_modal();
                    },
                    Key::Esc => {
                        self.close_modal();
                    },
                    _ => {},
                }
                Action::Stay
            },
            Overlay::ConfirmingDelete => {
                match (key, self.selected) {
                    (Key::Char(c), Some(i)) => {
                        if c == 'y' {
                            Action::Delete { id: self.todos[i].id }
                        } else if c == 'n' {
                            self.close_overlay();
                            Action::Stay
                        } else {
                            Action::Stay
                        }
                    },
                    _ => Action::Stay,
                }
            },
            Overlay::ChoosingStatus => {
                match (key, self.selected) {
                    (Key::Char(c), Some(i)) => {
                        match status_label(c) {
                            Some(status) => Action::SetStatus { id: self.todos[i].id, status },
                            None => Action::Stay,
                        }
                    },
                    (Key::Esc, _) => {
                        self.close_overlay();
                        Action::Stay
                    },
                    _ => Action::Stay,
                }
            },
        }
    }

    /// Takes the store's answer to a request to delete the selected record.
    /// The overlay closes. Unless the store failed, the record leaves the
    /// copy and the selection moves to a row that is there. Returns the
    /// store's error, for the driver to show, or success.
    pub fn delete_current_todo(&mut self, outcome: Result<bool, TodoError>) -> (res: Result<
        (),
        TodoError,
    >)
        requires
            old(self).wf(),
        ensures
            final(self).wf(),
            final(self)@ == old(self)@.after_delete(outcome),
            res == old(self)@.delete_answer(outcome),
    {
        self.overlay = Overlay::Normal;
        self.selected_todo = None;
        match (self.selected, outcome) {
            (Some(i), Ok(_)) => {
                self.todos.remove(i);
                let n: usize = self.todos.len();
                if n == 0 {
                    self.selected = None;
                } else if i < n {
                    self.selected = Some(i);
                } else {
                    self.selected = Some(n - 1);
                }
                assert(self@.rows =~= old(self)@.rows.remove(i as int));
                Ok(())
            },
            (Some(_), Err(e)) => Err(e),
            (None, _) => Ok(()),
        }
    }

    /// Takes the store's answer to a request to give the selected record the
    /// label `status`. The overlay closes. Unless the store failed, the copy
    /// of the record carries the label. Returns, for the driver to show, that
    /// nothing is selected, or the store's error, or success.
    pub fn change_todo_status(&mut self, status: String, outcome: Result<bool, TodoError>) -> (res:
        Result<(), TodoError>)
        requires
            old(self).wf(),
        ensures
            final(self).wf(),
            final(self)@ == old(self)@.after_status(status@, outcome),
            res == old(self)@.status_answer(outcome),
    {
        self.overlay = Overlay::Normal;
        self.selected_todo = None;
        match (self.selected, outcome) {
            (Some(i), Ok(_)) => {
                let mut row = self.todos[i].clone();
                row.status = status;
                self.todos[i] = row;
                assert(self@.rows =~= old(self)@.rows.update(
                    i as int,
                    old(self)@.rows[i as int].with_status(status@),
                ));
                Ok(())
            },
            (Some(_), Err(e)) => Err(e),
            (None, _) => Err(TodoError::ValidationError(Invalid::NoSelection)),
        }
    }

    /// The copy of the records.
    pub fn todos(&self) -> (todos: &Vec<Todo>)
        ensures
            views(todos@) == self@.rows,
    {
        &self.todos
    }

    /// The place of the selected record, if one is selected.
    pub fn selected(&self) -> (selected: Option<usize>)
        ensures
            self@.selected == match selected {
                Some(i) => Some(i as int),
                None => None,
            },
    {
        self.selected
    }

    /// The overlay that is open.
    pub fn overlay(&self) -> (overlay: Overlay)
        ensures
            overlay == self@.overlay,
    {
        self.overlay
    }

    /// Whether the detail view is open.
    pub fn show_modal(&self) -> (open: bool)
        ensures
            open == (self@.overlay == Overlay::ViewingDetail),
    {
        self.overlay == Overlay::ViewingDetail
    }

    /// Whether the question before a deletion is open.
    pub fn show_delete_confirmation(&self) -> (open: bool)
        ensures
            open == (self@.overlay == Overlay::ConfirmingDelete),
    {
        self.overlay == Overlay::ConfirmingDelete
    }

    /// The record that the detail view shows, while it is open.
    pub fn selected_todo(&self) -> (todo: &Option<Todo>)
        ensures
            self@.detail == match *todo {
                Some(t) => Some(t@),
                None => None,
            },
    {
        &self.selected_todo
    }
}

/// The status label that a key chooses in the status overlay.
pub fn status_label(c: char) -> (res: Option<String>)
    ensures
        match res {
            Some(s) => status_for(c) == Some(s@),
            None => status_for(c) is None,
        },
{
    if c == 'p' {
        Some(String::from_str("Pending"))
    } else if c == 'f' {
        Some(String::from_str("Done"))
    } else if c == 'o' {
        Some(String::from_str("Ongoing"))
    } else {
        None
    }
}

/// The table after the store did what the browser asked for.
pub open spec fn carried_out(t: Table, action: ActionView) -> Table {
    match action {
        ActionView::Delete { id } => t.delete(id as int),
        ActionView::SetStatus { id, status } => t.set_status(id as int, status),
        _ => t,
    }
}

/// Whether the store holds the record that the browser's request names. A
/// request that names none finds nothing missing.
pub open spec fn names_a_row(t: Table, action: ActionView) -> bool {
    match action {
        ActionView::Delete { id } => t.has(id as int),
        ActionView::SetStatus { id, status } => t.has(id as int),
        _ => true,
    }
}

/// Does on the store what the browser asked for: deletes the record, or sets
/// its status, and says whether the store held the record. Where it did not,
/// the store stays as it is.
pub fn carry_out(db: &mut DBtodo, action: &Action) -> (res: Result<bool, TodoError>)
    requires
        old(db).wf(),
    ensures
        final(db).wf(),
        final(db)@ == carried_out(old(db)@, action@),
        res == Ok::<bool, TodoError>(names_a_row(old(db)@, action@)),
{
    match action {
        Action::Delete { id } => {
            if *id < ID_LIMIT {
                db.delete_todo(*id as i32)
            } else {
                Ok(false)
            }
        },
        Action::SetStatus { id, status } => {
            if *id < ID_LIMIT {
                db.update_todo(*id as i32, status.clone())
            } else {
                proof {
                    crate::database::lemma_set_status_changes_only_status(
                        db@,
                        *id as int,
                        status@,
                    );
                }
                Ok(false)
            }
        },
        _ => Ok(true),
    }
}

/// No key and no answer of the store breaks the browser: afterwards a row is
/// selected exactly when there are rows, and the selection lies among them.
pub proof fn lemma_transitions_keep_wf(
    b: Browser,
    key: Key,
    status: Seq<char>,
    outcome: Result<bool, TodoError>,
)
    requires
        b.wf(),
    ensures
        b.after_key(key).wf(),
        b.close_detail().wf(),
        b.after_delete(outcome).wf(),
        b.after_status(status, outcome).wf(),
{
}

/// Moving down `k` rows from row `i` reaches row `i + k`, as long as that is a
/// row.
proof fn lemma_down_steps(b: Browser, i: int, k: nat)
    requires
        b.wf(),
        b.overlay == Overlay::Normal,
        b.selected == Some(i),
        i + k < b.rows.len(),
    ensures
        b.pressed(Key::Down, k) == (Browser { selected: Some(i + k), ..b }),
    decreases k,
{
    if k > 0 {
        lemma_down_steps(b, i, (k - 1) as nat);
    }
}

/// Pressing a key `a + c` times is pressing it `a` times and then `c` times.
proof fn lemma_pressed_split(b: Browser, key: Key, a: nat, c: nat)
    ensures
        b.pressed(key, a + c) == b.pressed(key, a).pressed(key, c),
    decreases c,
{
    if c > 0 {
        lemma_pressed_split(b, key, a, (c - 1) as nat);
        assert(a + c - 1 == a + (c - 1));
    }
}

/// Moving down wraps around: with no overlay open, as many moves down as
/// there are rows bring the selection back to the row it started from, the
/// first row or any other, and leave everything else as it was.
pub proof fn lemma_down_wraps_around(b: Browser)
    requires
        b.wf(),
        b.overlay == Overlay::Normal,
    ensures
        b.pressed(Key::Down, b.rows.len()) == b,
{
    let n = b.rows.len();
    if n > 0 {
        let i = b.selected->0;
        let to_last = (n - 1 - i) as nat;
        lemma_down_steps(b, i, to_last);
        let at_first = b.pressed(Key::Down, to_last + 1);
        assert(at_first == (Browser { selected: Some(0), ..b }));
        lemma_down_steps(at_first, 0, i as nat);
        lemma_pressed_split(b, Key::Down, to_last + 1, i as nat);
        assert(to_last + 1 + i as nat == n);
    }
}

/// Moving up undoes moving down, and moving down undoes moving up.
pub proof fn lemma_up_and_down_undo_each_other(b: Browser)
    requires
        b.wf(),
    ensures
        b.move_down().move_up() == b,
        b.move_up().move_down() == b,
{
}

/// The copy follows the store. If the browser's rows are the store's rows and
/// the store does what the browser asked for the selected row, then after its
/// answer is reported, whichever it is, the browser's rows are the store's
/// rows again.
pub proof fn lemma_copy_follows_store(t: Table, b: Browser, status: Seq<char>)
    requires
        t.wf(),
        b.wf(),
        b.rows == t.rows,
        b.selected is Some,
    ensures
        forall|found: bool|
            (#[trigger] b.after_delete(Ok(found))).rows == t.delete(
                b.rows[b.selected->0].id as int,
            ).rows,
        forall|found: bool|
            (#[trigger] b.after_status(status, Ok(found))).rows == t.set_status(
                b.rows[b.selected->0].id as int,
                status,
            ).rows,
{
    let i = b.selected->0;
    let id = b.rows[i].id as int;
    assert(t.has(id));
    assert(t.position(id) == i) by {
        let p = t.position(id);
        if p < i {
            assert(t.rows[p].id < t.rows[i].id);
        } else if p > i {
            assert(t.rows[i].id < t.rows[p].id);
        }
    }
    assert forall|j: int| 0 <= j < t.rows.len() && j != i implies (#[trigger] t.rows[j]).id
        != id by {
        if j < i {
            assert(t.rows[j].id < t.rows[i].id);
        } else {
            assert(t.rows[i].id < t.rows[j].id);
        }
    }
    assert forall|found: bool|
        (#[trigger] b.after_status(status, Ok(found))).rows == t.set_status(id, status).rows by {
        assert(b.after_status(status, Ok(found)).rows =~= t.set_status(id, status).rows);
    }
}

/// When the store fails, the copy stays as it was and the overlay closes all
/// the same.
pub proof fn lemma_failure_leaves_copy(b: Browser, status: Seq<char>, outcome: Result<bool, TodoError>)
    requires
        outcome is Err,
    ensures
        b.after_delete(outcome).rows == b.rows,
        b.after_delete(outcome).selected == b.selected,
        b.after_delete(outcome).overlay == Overlay::Normal,
        b.after_status(status, outcome).rows == b.rows,
        b.after_status(status, outcome).selected == b.selected,
        b.after_status(status, outcome).overlay == Overlay::Normal,
{
}

} // verus!
