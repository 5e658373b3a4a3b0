use vstd::prelude::*;
use crate::grid::{Grid, column_count};
use crate::viewport::{Viewport, on_screen};
use crate::session::{Mode, SaveState};

verus! {

/// The glyph that ends a cell's text when it was cut short.
pub open spec fn truncation_marker() -> char {
    '→'
}

/// What is shown of `t` in a column `width` wide: the text itself when it
/// is shorter than the column, else its first `width - 4` characters and
/// the truncation marker.
pub open spec fn shown_text(t: Seq<char>, width: int) -> Seq<char> {
    if t.len() < width {
        t
    } else {
        t.subrange(0, if width >= 4 { width - 4 } else { 0 }).push(truncation_marker())
    }
}

/// Formats a cell's text for a column `cell_width` wide, cutting it short
/// with a marker when it does not fit.
pub fn format_cell(text: &String, cell_width: usize) -> (r: String)
    ensures
        r@ == shown_text(text@, cell_width as int),
{
    let n = text.as_str().unicode_len();
    if n < cell_width {
        return text.clone();
    }
    let keep: usize = if cell_width >= 4 {
        cell_width - 4
    } else {
        0
    };
    let mut r = String::from_str(text.as_str().substring_char(0, keep));
    r.append("→");
    proof {
        reveal_strlit("→");
    }
    assert(r@ =~= shown_text(text@, cell_width as int));
    r
}

/// Which border line of the table: above the first row, between two rows,
/// or below the last.
#[derive(Clone, Copy, Debug, PartialEq, Eq, Structural)]
pub enum Border {
    Top,
    Middle,
    Bottom,
}

/// The glyphs of a border line: its left end, its right end, where a
/// column boundary crosses it, and elsewhere.
pub open spec fn border_glyphs(kind: Border) -> (char, char, char) {
    match kind {
        Border::Top => ('┌', '┐', '┬'),
        Border::Middle => ('├', '┤', '┼'),
        Border::Bottom => ('└', '┘', '┴'),
    }
}

/// The glyph at position `i` of a border line `len` wide crossed every
/// `cell_width` positions.
pub open spec fn border_glyph(kind: Border, len: int, cell_width: int, i: int) -> char {
    if i == 0 {
        border_glyphs(kind).0
    } else if i == len {
        border_glyphs(kind).1
    } else if i % cell_width == 0 {
        border_glyphs(kind).2
    } else {
        '─'
    }
}

/// A horizontal border `len` wide, with `len + 1` glyphs: the two ends and
/// a crossing at every multiple of `cell_width` between them.
pub fn border_line(kind: Border, len: usize, cell_width: usize) -> (r: Vec<char>)
    requires
        cell_width >= 1,
        len < usize::MAX,
    ensures
        r@.len() == len + 1,
        forall|i: int| 0 <= i <= len ==> #[trigger] r@[i] == border_glyph(kind, len as int, cell_width as int, i),
{
    let (left, right, cross) = match kind {
        Border::Top => ('┌', '┐', '┬'),
        Border::Middle => ('├', '┤', '┼'),
        Border::Bottom => ('└', '┘', '┴'),
    };
    let mut r: Vec<char> = Vec::new();
    let mut i: usize = 0;
    while i <= len
        invariant
            cell_width >= 1,
            len < usize::MAX,
            i <= len + 1,
            r@.len() == i,
            (left, right, cross) == border_glyphs(kind),
            forall|k: int| 0 <= k < i ==> #[trigger] r@[k] == border_glyph(kind, len as int, cell_width as int, k),
        decreases len + 1 - i,
    {
        let g = if i == 0 {
            left
        } else if i == len {
            right
        } else if i % cell_width == 0 {
            cross
        } else {
            '─'
        };
        r.push(g);
        i = i + 1;
    }
    r
}

/// How a drawn cell is shown.
#[derive(Clone, Copy, Debug, PartialEq, Eq, Structural)]
pub enum Style {
    Plain,
    Header,
    Selected,
}

/// The style of the cell at position (`i`, `j`) of the window, row first:
/// the cursor's cell stands out, then the header row while the window
/// shows it.
pub open spec fn style_of(
    vp: Viewport,
    has_header: bool,
    cursor_col: int,
    cursor_row: int,
    i: int,
    j: int,
) -> Style {
    if vp.row_skip + i == cursor_row && vp.col_skip + j == cursor_col {
        Style::Selected
    } else if i == 0 && has_header && vp.row_skip == 0 {
        Style::Header
    } else {
        Style::Plain
    }
}

/// Terminal column where the first cell of a row starts.
pub const LEFT_MARGIN: usize = 2;

/// Terminal line of the first row's text.
pub const FIRST_TEXT_LINE: usize = 5;

/// One cell to draw: where its left border goes on screen (one-based), its
/// style and its text.
pub struct DrawCell {
    pub x: usize,
    pub y: usize,
    pub style: Style,
    pub text: String,
}

/// `d` is the cell at (`i`, `j`) of the window `vp` onto `g`.
pub open spec fn draws_cell(
    d: DrawCell,
    g: Seq<Seq<Seq<char>>>,
    has_header: bool,
    vp: Viewport,
    cursor_col: int,
    cursor_row: int,
    cell_width: int,
    i: int,
    j: int,
) -> bool {
    &&& d.x == LEFT_MARGIN + j * cell_width
    &&& d.y == FIRST_TEXT_LINE + i * 2
    &&& d.style == style_of(vp, has_header, cursor_col, cursor_row, i, j)
    &&& d.text@ == shown_text(g[vp.row_skip + i][vp.col_skip + j], cell_width)
}

/// The cells of the window `vp` onto `grid`, row by row, each formatted
/// for its column and placed on screen, with the cursor at
/// (`cursor_col`, `cursor_row`).
pub fn visible_cells(
    grid: &Grid,
    vp: &Viewport,
    cursor_col: usize,
    cursor_row: usize,
    cell_width: usize,
    term_width: u16,
    term_height: u16,
) -> (r: Vec<Vec<DrawCell>>)
    requires
        grid.wf(),
        cell_width >= 1,
        vp.row_skip + vp.visible_rows <= grid@.len(),
        vp.col_skip + vp.visible_cols <= column_count(grid@),
        on_screen(*vp, cell_width as int, term_width as int, term_height as int),
    ensures
        r@.len() == vp.visible_rows,
        forall|i: int| 0 <= i < vp.visible_rows ==> #[trigger] r@[i]@.len() == vp.visible_cols,
        forall|i: int, j: int|
            0 <= i < vp.visible_rows && 0 <= j < vp.visible_cols ==> draws_cell(
                #[trigger] r@[i]@[j],
                grid@,
                grid.has_header,
                *vp,
                cursor_col as int,
                cursor_row as int,
                cell_width as int,
                i,
                j,
            ),
{
    let rows = grid.rows();
    let cols = grid.cols();
    let mut r: Vec<Vec<DrawCell>> = Vec::new();
    let mut i: usize = 0;
    while i < vp.visible_rows
        invariant
            grid.wf(),
            cell_width >= 1,
            vp.row_skip + vp.visible_rows <= grid@.len(),
            vp.col_skip + vp.visible_cols <= column_count(grid@),
            rows == grid@.len(),
            cols == column_count(grid@),
            on_screen(*vp, cell_width as int, term_width as int, term_height as int),
            i <= vp.visible_rows,
            r@.len() == i,
            forall|a: int| 0 <= a < i ==> #[trigger] r@[a]@.len() == vp.visible_cols,
            forall|a: int, b: int|
                0 <= a < i && 0 <= b < vp.visible_cols ==> draws_cell(
                    #[trigger] r@[a]@[b],
                    grid@,
                    grid.has_header,
                    *vp,
                    cursor_col as int,
                    cursor_row as int,
                    cell_width as int,
                    a,
                    b,
                ),
        decreases vp.visible_rows - i,
    {
        let row = vp.row_skip + i;
        assert(grid@[row as int].len() == column_count(grid@));
        let mut line: Vec<DrawCell> = Vec::new();
        let mut j: usize = 0;
        while j < vp.visible_cols
            invariant
                grid.wf(),
                cell_width >= 1,
                vp.row_skip + vp.visible_rows <= grid@.len(),
                vp.col_skip + vp.visible_cols <= column_count(grid@),
                rows == grid@.len(),
                cols == column_count(grid@),
                on_screen(*vp, cell_width as int, term_width as int, term_height as int),
                i < vp.visible_rows,
                row == vp.row_skip + i,
                grid@[row as int].len() == column_count(grid@),
                j <= vp.visible_cols,
                line@.len() == j,
                forall|b: int|
                    0 <= b < j ==> draws_cell(
                        #[trigger] line@[b],
                        grid@,
                        grid.has_header,
                        *vp,
                        cursor_col as int,
                        cursor_row as int,
                        cell_width as int,
                        i as int,
                        b,
                    ),
            decreases vp.visible_cols - j,
        {
            let col = vp.col_skip + j;
            let style = if row == cursor_row && col == cursor_col {
                Style::Selected
            } else if i == 0 && grid.has_header && vp.row_skip == 0 {
                Style::Header
            } else {
                Style::Plain
            };
            proof {
                if j > 0 {
                    assert(j * cell_width < vp.visible_cols * cell_width) by (nonlinear_arith)
                        requires
                            j < vp.visible_cols,
                            cell_width >= 1,
                    ;
                } else {
                    assert(j * cell_width == 0);
                }
            }
            let text = format_cell(&grid.data[row][col], cell_width);
            let x = LEFT_MARGIN + j * cell_width;
            let y = FIRST_TEXT_LINE + i * 2;
            line.push(DrawCell { x, y, style, text });
            j = j + 1;
        }
        r.push(line);
        i = i + 1;
    }
    r
}

/// The width on screen of the drawn columns, borders excluded.
pub fn table_width(vp: &Viewport, cell_width: usize, term_width: u16, term_height: u16) -> (r: usize)
    requires
        on_screen(*vp, cell_width as int, term_width as int, term_height as int),
    ensures
        r == vp.visible_cols * cell_width,
{
    if vp.visible_cols == 1 {
        cell_width
    } else {
        vp.visible_cols * cell_width
    }
}

/// The footer's word for the save state.
pub fn save_label(s: SaveState) -> (r: &'static str)
    ensures
        s == SaveState::Dirty ==> r@ == "edited"@,
        s == SaveState::Clean ==> r@ == "saved"@,
{
    match s {
        SaveState::Dirty => "edited",
        SaveState::Clean => "saved",
    }
}

/// The label in front of the active buffer, if the mode takes input.
pub fn prompt_label(m: Mode) -> (r: Option<&'static str>)
    ensures
        m == Mode::Normal <==> r is None,
        m == Mode::Editing ==> r == Some("Editor: "),
        m == Mode::GoTo ==> r == Some("Going to: "),
        m == Mode::Resize ==> r == Some("New size: "),
{
    match m {
        Mode::Normal => None,
        Mode::Editing => Some("Editor: "),
        Mode::GoTo => Some("Going to: "),
        Mode::Resize => Some("New size: "),
    }
}

} // verus!
