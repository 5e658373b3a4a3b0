use vstd::prelude::*;
use crate::grid::{Grid, column_count, is_table, resized};
use crate::parse::{pair_of, parse_pair};
use crate::viewport::DEFAULT_CELL_WIDTH;

verus! {

/// Which input the session is taking.
#[derive(Clone, Copy, Debug, PartialEq, Eq, Structural)]
pub enum Mode {
    Normal,
    Editing,
    GoTo,
    Resize,
}

/// Whether the grid holds edits that were not saved.
#[derive(Clone, Copy, Debug, PartialEq, Eq, Structural)]
pub enum SaveState {
    Clean,
    Dirty,
}

/// A key event, after the physical keys have been mapped.
#[derive(Clone, Copy, Debug, PartialEq, Eq, Structural)]
pub enum Key {
    /// A printable character; a newline confirms the active input.
    Char(char),
    Backspace,
    Left,
    Right,
    Up,
    Down,
    Quit,
    ToggleHeader,
    ToggleEdit,
    ToggleGoTo,
    ToggleResize,
    ClearBuffer,
    Save,
    Other,
}

/// A problem with typed input, reported without ending the session.
#[derive(Clone, Copy, Debug, PartialEq, Eq, Structural)]
pub enum Diagnostic {
    /// The jump target was not two numbers `col,row`.
    GoToArguments,
    /// The new size was not two non-zero numbers `cols,rows`.
    ResizeArguments,
}

/// What the caller does after a key has been handled.
#[derive(Clone, Copy, Debug, PartialEq, Eq, Structural)]
pub enum Action {
    Continue,
    Quit,
    /// Write the grid out, then report success with `saved`.
    Save,
    Report(Diagnostic),
}

/// The state of an editing session, as the contracts see it.
pub struct SessionModel {
    pub table: Seq<Seq<Seq<char>>>,
    pub has_header: bool,
    pub col: int,
    pub row: int,
    pub mode: Mode,
    pub editor: Seq<char>,
    pub goto: Seq<char>,
    pub resize: Seq<char>,
    pub save_state: SaveState,
}

/// A state that a session can be in: a table, and the cursor on one of its
/// cells.
pub open spec fn model_wf(m: SessionModel) -> bool {
    &&& is_table(m.table)
    &&& 0 <= m.col < column_count(m.table)
    &&& 0 <= m.row < m.table.len()
}

/// The buffer that typed characters go to in the mode of `m`; none in
/// normal mode.
pub open spec fn active_buffer(m: SessionModel) -> Seq<char> {
    match m.mode {
        Mode::Editing => m.editor,
        Mode::GoTo => m.goto,
        Mode::Resize => m.resize,
        Mode::Normal => Seq::empty(),
    }
}

/// `m` with the active buffer replaced by `b`.
pub open spec fn with_active_buffer(m: SessionModel, b: Seq<char>) -> SessionModel {
    match m.mode {
        Mode::Editing => SessionModel { editor: b, ..m },
        Mode::GoTo => SessionModel { goto: b, ..m },
        Mode::Resize => SessionModel { resize: b, ..m },
        Mode::Normal => m,
    }
}

/// Leaves editing, writing the edited text into the cursor's cell.
pub open spec fn commit_edit(m: SessionModel) -> SessionModel {
    SessionModel {
        table: m.table.update(m.row, m.table[m.row].update(m.col, m.editor)),
        mode: Mode::Normal,
        editor: Seq::empty(),
        save_state: SaveState::Dirty,
        ..m
    }
}

/// `v` moved onto the last of `len` positions when it lies past them.
pub open spec fn clamp(v: nat, len: nat) -> int {
    if v < len {
        v as int
    } else {
        len - 1
    }
}

/// Leaves the jump input, moving the cursor to the typed cell (clamped to
/// the grid) when the input is two numbers.
pub open spec fn confirm_goto(m: SessionModel) -> (SessionModel, Action) {
    let done = SessionModel { mode: Mode::Normal, goto: Seq::empty(), ..m };
    match pair_of(m.goto) {
        Some((c, r)) => (
            SessionModel {
                col: clamp(c, column_count(m.table)),
                row: clamp(r, m.table.len()),
                ..done
            },
            Action::Continue,
        ),
        None => (done, Action::Report(Diagnostic::GoToArguments)),
    }
}

/// Leaves the resize input, resizing the grid and putting the cursor back
/// at the origin when the input is two non-zero numbers.
pub open spec fn confirm_resize(m: SessionModel) -> (SessionModel, Action) {
    let done = SessionModel { mode: Mode::Normal, resize: Seq::empty(), ..m };
    match pair_of(m.resize) {
        Some((w, h)) => if w >= 1 && h >= 1 {
            (
                SessionModel { table: resized(m.table, w, h), col: 0, row: 0, ..done },
                Action::Continue,
            )
        } else {
            (done, Action::Report(Diagnostic::ResizeArguments))
        },
        None => (done, Action::Report(Diagnostic::ResizeArguments)),
    }
}

/// Confirms the active input.
pub open spec fn confirm(m: SessionModel) -> (SessionModel, Action) {
    match m.mode {
        Mode::Editing => (commit_edit(m), Action::Continue),
        Mode::GoTo => confirm_goto(m),
        Mode::Resize => confirm_resize(m),
        Mode::Normal => (m, Action::Continue),
    }
}

/// The state after key `k` in state `m`, and what the caller must do.
pub open spec fn next(m: SessionModel, k: Key) -> (SessionModel, Action) {
    let same = (m, Action::Continue);
    let normal = m.mode == Mode::Normal;
    match k {
        Key::Quit => (m, Action::Quit),
        Key::ToggleHeader => (SessionModel { has_header: !m.has_header, ..m }, Action::Continue),
        Key::ToggleEdit => if normal {
            (SessionModel { mode: Mode::Editing, editor: m.table[m.row][m.col], ..m }, Action::Continue)
        } else if m.mode == Mode::Editing {
            confirm(m)
        } else {
            same
        },
        Key::ToggleGoTo => if normal {
            (SessionModel { mode: Mode::GoTo, goto: Seq::empty(), ..m }, Action::Continue)
        } else if m.mode == Mode::GoTo {
            confirm(m)
        } else {
            same
        },
        Key::ToggleResize => if normal {
            (SessionModel { mode: Mode::Resize, resize: Seq::empty(), ..m }, Action::Continue)
        } else if m.mode == Mode::Resize {
            confirm(m)
        } else {
            same
        },
        Key::ClearBuffer => if m.mode == Mode::Editing {
            (SessionModel { editor: Seq::empty(), ..m }, Action::Continue)
        } else {
            same
        },
        Key::Char(c) => if c == '\n' {
            confirm(m)
        } else {
            (with_active_buffer(m, active_buffer(m).push(c)), Action::Continue)
        },
        Key::Backspace => if active_buffer(m).len() > 0 {
            (with_active_buffer(m, active_buffer(m).drop_last()), Action::Continue)
        } else {
            same
        },
        Key::Save => if normal && m.save_state == SaveState::Dirty {
            (m, Action::Save)
        } else {
            same
        },
        Key::Left => if normal && m.col > 0 {
            (SessionModel { col: m.col - 1, ..m }, Action::Continue)
        } else {
            same
        },
        Key::Right => if normal && m.col + 1 < column_count(m.table) {
            (SessionModel { col: m.col + 1, ..m }, Action::Continue)
        } else {
            same
        },
        Key::Up => if normal && m.row > 0 {
            (SessionModel { row: m.row - 1, ..m }, Action::Continue)
        } else {
            same
        },
        Key::Down => if normal && m.row + 1 < m.table.len() {
            (SessionModel { row: m.row + 1, ..m }, Action::Continue)
        } else {
            same
        },
        Key::Other => same,
    }
}

/// The state after the keys `ks`, one after the other, from `m`.
pub open spec fn run(m: SessionModel, ks: Seq<Key>) -> SessionModel
    decreases ks.len(),
{
    if ks.len() == 0 {
        m
    } else {
        run(next(m, ks[0]).0, ks.subrange(1, ks.len() as int))
    }
}

/// Every key keeps the grid a table and the cursor on one of its cells.
pub proof fn next_keeps_cursor_in_grid(m: SessionModel, k: Key)
    requires
        model_wf(m),
    ensures
        model_wf(next(m, k).0),
{
    let n = next(m, k).0;
    assert(m.table[m.row].len() == column_count(m.table));
    if n.table != m.table {
        if n.table.len() == m.table.len() && n.mode == Mode::Normal && m.mode == Mode::Editing {
            assert forall|i: int| 0 <= i < n.table.len() implies #[trigger] n.table[i].len()
                == n.table[0].len() by {
                assert(m.table[i].len() == m.table[0].len());
            }
        } else {
            let (w, h) = pair_of(m.resize)->0;
            crate::grid::lemma_resized_is_table(m.table, w, h);
        }
    }
}

/// After any sequence of keys the grid is a table and the cursor is on one
/// of its cells.
pub proof fn cursor_stays_in_grid(m: SessionModel, ks: Seq<Key>)
    requires
        model_wf(m),
    ensures
        model_wf(run(m, ks)),
    decreases ks.len(),
{
    if ks.len() > 0 {
        next_keeps_cursor_in_grid(m, ks[0]);
        cursor_stays_in_grid(next(m, ks[0]).0, ks.subrange(1, ks.len() as int));
    }
}

/// Entering an input mode starts its buffer afresh, whatever it held
/// before: the cell's text for editing, nothing for a jump or a resize.
pub proof fn entering_mode_resets_buffer(m: SessionModel, k: Key)
    requires
        model_wf(m),
        m.mode == Mode::Normal,
        k == Key::ToggleEdit || k == Key::ToggleGoTo || k == Key::ToggleResize,
    ensures
        next(m, k).1 == Action::Continue,
        k == Key::ToggleEdit ==> next(m, k).0.mode == Mode::Editing
            && next(m, k).0.editor == m.table[m.row][m.col],
        k == Key::ToggleGoTo ==> next(m, k).0.mode == Mode::GoTo && next(m, k).0.goto.len() == 0,
        k == Key::ToggleResize ==> next(m, k).0.mode == Mode::Resize
            && next(m, k).0.resize.len() == 0,
{
}

/// An editing session: the grid, the cursor, the input mode with its
/// buffers, and whether there are unsaved edits.
pub struct Session {
    pub grid: Grid,
    pub col: usize,
    pub row: usize,
    pub mode: Mode,
    pub editor_buffer: Vec<char>,
    pub goto_buffer: Vec<char>,
    pub resize_buffer: Vec<char>,
    pub save_state: SaveState,
    pub cell_width: usize,
}

impl View for Session {
    type V = SessionModel;

    open spec fn view(&self) -> SessionModel {
        SessionModel {
            table: self.grid@,
            has_header: self.grid.has_header,
            col: self.col as int,
            row: self.row as int,
            mode: self.mode,
            editor: self.editor_buffer@,
            goto: self.goto_buffer@,
            resize: self.resize_buffer@,
            save_state: self.save_state,
        }
    }
}

/// The characters of `s`, in order.
fn chars_of(s: &String) -> (r: Vec<char>)
    ensures
        r@ == s@,
{
    let t = s.as_str();
    let n = t.unicode_len();
    let mut r: Vec<char> = Vec::new();
    let mut i: usize = 0;
    while i < n
        invariant
            n == t@.len(),
            t@ == s@,
            i <= n,
            r@ == t@.subrange(0, i as int),
        decreases n - i,
    {
        r.push(t.get_char(i));
        assert(r@ =~= t@.subrange(0, i + 1));
        i = i + 1;
    }
    assert(r@ =~= t@);
    r
}

/// Relies on std's `FromIterator<char>` for `String`, which joins the
/// characters in order.
#[verifier::external_body]
fn text_of(cs: &Vec<char>) -> (r: String)
    ensures
        r@ == cs@,
{
    cs.iter().collect()
}

impl Session {
    pub open spec fn wf(&self) -> bool {
        &&& self.grid.wf()
        &&& model_wf(self@)
        &&& self.cell_width >= 1
    }

    /// A session on `grid`, in normal mode, with the cursor on the first
    /// cell, empty buffers and nothing to save.
    pub fn new(grid: Grid) -> (s: Session)
        requires
            grid.wf(),
        ensures
            s.wf(),
            s@ == (SessionModel {
                table: grid@,
                has_header: grid.has_header,
                col: 0,
                row: 0,
                mode: Mode::Normal,
                editor: Seq::empty(),
                goto: Seq::empty(),
                resize: Seq::empty(),
                save_state: SaveState::Clean,
            }),
            s.cell_width == DEFAULT_CELL_WIDTH,
    {
        let s = Session {
            grid,
            col: 0,
            row: 0,
            mode: Mode::Normal,
            editor_buffer: Vec::new(),
            goto_buffer: Vec::new(),
            resize_buffer: Vec::new(),
            save_state: SaveState::Clean,
            cell_width: DEFAULT_CELL_WIDTH,
        };
        assert(s@.editor =~= Seq::empty());
        s
    }

    /// The text typed so far in the current input mode; nothing in normal
    /// mode.
    pub fn active_text(&self) -> (r: Vec<char>)
        ensures
            r@ == active_buffer(self@),
    {
        let b = match self.mode {
            Mode::Editing => &self.editor_buffer,
            Mode::GoTo => &self.goto_buffer,
            Mode::Resize => &self.resize_buffer,
            Mode::Normal => {
                return Vec::new();
            },
        };
        let mut r: Vec<char> = Vec::new();
        let mut i: usize = 0;
        while i < b.len()
            invariant
                b@ == active_buffer(self@),
                i <= b@.len(),
                r@ == b@.subrange(0, i as int),
            decreases b@.len() - i,
        {
            r.push(b[i]);
            assert(r@ =~= b@.subrange(0, i + 1));
            i = i + 1;
        }
        assert(r@ =~= b@);
        r
    }

    /// Records that the grid was written out.
    pub fn saved(&mut self)
        requires
            old(self).wf(),
        ensures
            final(self).wf(),
            final(self)@ == (SessionModel { save_state: SaveState::Clean, ..old(self)@ }),
            final(self).cell_width == old(self).cell_width,
    {
        self.save_state = SaveState::Clean;
    }

    fn commit_edit(&mut self)
        requires
            old(self).wf(),
            old(self).mode == Mode::Editing,
        ensures
            final(self).wf(),
            final(self)@ == commit_edit(old(self)@),
            final(self).cell_width == old(self).cell_width,
    {
        let text = text_of(&self.editor_buffer);
        let _ = self.grid.set(self.col, self.row, text);
        self.editor_buffer.clear();
        self.mode = Mode::Normal;
        self.save_state = SaveState::Dirty;
    }

    fn confirm_goto(&mut self) -> (a: Action)
        requires
            old(self).wf(),
            old(self).mode == Mode::GoTo,
        ensures
            final(self).wf(),
            (final(self)@, a) == confirm_goto(old(self)@),
            final(self).cell_width == old(self).cell_width,
    {
        let target = parse_pair(&self.goto_buffer);
        self.goto_buffer.clear();
        self.mode = Mode::Normal;
        match target {
            Some((c, r)) => {
                let cols = self.grid.cols();
                let rows = self.grid.rows();
                self.col = if c < cols {
                    c
                } else {
                    cols - 1
                };
                self.row = if r < rows {
                    r
                } else {
                    rows - 1
                };
                Action::Continue
            },
            None => Action::Report(Diagnostic::GoToArguments),
        }
    }

    fn confirm_resize(&mut self) -> (a: Action)
        requires
            old(self).wf(),
            old(self).mode == Mode::Resize,
        ensures
            final(self).wf(),
            (final(self)@, a) == confirm_resize(old(self)@),
            final(self).cell_width == old(self).cell_width,
    {
        let size = parse_pair(&self.resize_buffer);
        self.resize_buffer.clear();
        self.mode = Mode::Normal;
        match size {
            Some((w, h)) => {
                if w >= 1 && h >= 1 {
                    let _ = self.grid.resize(w, h);
                    self.col = 0;
                    self.row = 0;
                    Action::Continue
                } else {
                    Action::Report(Diagnostic::ResizeArguments)
                }
            },
            None => Action::Report(Diagnostic::ResizeArguments),
        }
    }

    fn confirm(&mut self) -> (a: Action)
        requires
            old(self).wf(),
        ensures
            final(self).wf(),
            (final(self)@, a) == confirm(old(self)@),
            final(self).cell_width == old(self).cell_width,
    {
        match self.mode {
            Mode::Editing => {
                self.commit_edit();
                Action::Continue
            },
            Mode::GoTo => self.confirm_goto(),
            Mode::Resize => self.confirm_resize(),
            Mode::Normal => Action::Continue,
        }
    }

    /// Handles one key: edits the active buffer, changes mode, moves the
    /// cursor or commits typed input, as `next` says.
    pub fn handle(&mut self, k: Key) -> (a: Action)
        requires
            old(self).wf(),
        ensures
            final(self).wf(),
            (final(self)@, a) == next(old(self)@, k),
            final(self).cell_width == old(self).cell_width,
    {
        proof {
            next_keeps_cursor_in_grid(self@, k);
            assert(self.grid@[self.row as int].len() == column_count(self.grid@));
        }
        let normal = self.mode == Mode::Normal;
        match k {
            Key::Quit => Action::Quit,
            Key::ToggleHeader => {
                self.grid.has_header = !self.grid.has_header;
                Action::Continue
            },
            Key::ToggleEdit => {
                if normal {
                    self.editor_buffer = chars_of(&self.grid.data[self.row][self.col]);
                    self.mode = Mode::Editing;
                    Action::Continue
                } else if self.mode == Mode::Editing {
                    self.confirm()
                } else {
                    Action::Continue
                }
            },
            Key::ToggleGoTo => {
                if normal {
                    self.goto_buffer.clear();
                    self.mode = Mode::GoTo;
                    Action::Continue
                } else if self.mode == Mode::GoTo {
                    self.confirm()
                } else {
                    Action::Continue
                }
            },
            Key::ToggleResize => {
                if normal {
                    self.resize_buffer.clear();
                    self.mode = Mode::Resize;
                    Action::Continue
                } else if self.mode == Mode::Resize {
                    self.confirm()
                } else {
                    Action::Continue
                }
            },
            Key::ClearBuffer => {
                if self.mode == Mode::Editing {
                    self.editor_buffer.clear();
                }
                Action::Continue
            },
            Key::Char(c) => {
                if c == '\n' {
                    self.confirm()
                } else {
                    match self.mode {
                        Mode::Editing => self.editor_buffer.push(c),
                        Mode::GoTo => self.goto_buffer.push(c),
                        Mode::Resize => self.resize_buffer.push(c),
                        Mode::Normal => {},
                    }
                    Action::Continue
                }
            },
            Key::Backspace => {
                match self.mode {
                    Mode::Editing => {
                        self.editor_buffer.pop();
                    },
                    Mode::GoTo => {
                        self.goto_buffer.pop();
                    },
                    Mode::Resize => {
                        self.resize_buffer.pop();
                    },
                    Mode::Normal => {},
                }
                Action::Continue
            },
            Key::Save => {
                if normal && self.save_state == SaveState::Dirty {
                    Action::Save
                } else {
                    Action::Continue
                }
            },
            Key::Left => {
                if normal && self.col > 0 {
                    self.col = self.col - 1;
                }
                Action::Continue
            },
            Key::Right => {
                if normal && self.col < self.grid.cols() - 1 {
                    self.col = self.col + 1;
                }
                Action::Continue
            },
            Key::Up => {
                if normal && self.row > 0 {
                    self.row = self.row - 1;
                }
                Action::Continue
            },
            Key::Down => {
                if normal && self.row < self.grid.rows() - 1 {
                    self.row = self.row + 1;
                }
                Action::Continue
            },
            Key::Other => Action::Continue,
        }
    }
}

} // verus!
