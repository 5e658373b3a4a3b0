use vstd::prelude::*;
use vstd::arithmetic::div_mod::{lemma_div_by_multiple, lemma_div_is_ordered, lemma_multiply_divide_lt};

verus! {

/// Terminal rows taken by the title above the table and the status line
/// below it.
pub const CHROME_ROWS: u16 = 6;

/// The width of a column on screen when nothing else is asked for.
pub const DEFAULT_CELL_WIDTH: usize = 20;

/// The smaller of `a` and `b`.
pub open spec fn min_int(a: int, b: int) -> int {
    if a < b {
        a
    } else {
        b
    }
}

/// `a`, raised to one when it is smaller.
pub open spec fn at_least_one(a: int) -> int {
    if a >= 1 {
        a
    } else {
        1
    }
}

/// How many rows fit: each row takes two terminal lines (text and border),
/// plus one closing border, in what the chrome leaves of the terminal.
pub open spec fn visible_row_count(rows: int, term_height: int) -> int {
    let content = if term_height >= CHROME_ROWS { term_height - CHROME_ROWS } else { 0 };
    at_least_one(min_int(rows, min_int(rows * 2 + 1, content) / 2))
}

/// How many whole columns of `cell_width` fit in the terminal's width.
pub open spec fn visible_col_count(cols: int, cell_width: int, term_width: int) -> int {
    at_least_one(min_int(cols, min_int(cols * cell_width, term_width) / cell_width))
}

/// The fewest leading rows or columns to skip so that position `pos` is
/// inside a window of `visible` of them.
pub open spec fn skip_for(pos: int, visible: int) -> int {
    if pos + 1 - visible > 0 {
        pos + 1 - visible
    } else {
        0
    }
}

/// The part of the grid that is drawn: the rows and columns skipped before
/// it and how many of each are shown.
#[derive(Clone, Copy, Debug, PartialEq, Eq, Structural)]
pub struct Viewport {
    pub row_skip: usize,
    pub col_skip: usize,
    pub visible_rows: usize,
    pub visible_cols: usize,
}

/// Where the cursor stands against its window on one axis: on the last
/// line of the first window (no arrow), past the first window with content
/// scrolled away (the scroll-down or scroll-right arrow), or inside the
/// first window (the opposite arrow, toward where the cursor still has room
/// to move back).
#[derive(Clone, Copy, Debug, PartialEq, Eq, Structural)]
pub enum Indicator {
    Boundary,
    Scrolled,
    Within,
}

/// The indicator for a cursor at `pos` in a window of `visible` lines.
pub open spec fn indicator_of(pos: int, visible: int) -> Indicator {
    if pos + 1 - visible == 0 {
        Indicator::Boundary
    } else if pos + 1 - visible > 0 {
        Indicator::Scrolled
    } else {
        Indicator::Within
    }
}

proof fn lemma_rows_fit(rows: int, content: int)
    requires
        rows >= 0,
        content >= 0,
    ensures
        min_int(rows, min_int(rows * 2 + 1, content) / 2) == min_int(rows, content / 2),
{
    if rows * 2 + 1 < content {
        assert((rows * 2 + 1) / 2 == rows);
        lemma_div_is_ordered(rows * 2 + 1, content, 2);
    } else {
        lemma_div_is_ordered(content, rows * 2 + 1, 2);
        assert((rows * 2 + 1) / 2 == rows);
    }
}

proof fn lemma_cols_fit(cols: int, cell_width: int, term_width: int)
    requires
        cols >= 0,
        cell_width >= 1,
        term_width >= 0,
    ensures
        min_int(cols, min_int(cols * cell_width, term_width) / cell_width) == min_int(
            cols,
            term_width / cell_width,
        ),
{
    lemma_div_by_multiple(cols, cell_width);
    if cols * cell_width < term_width {
        lemma_div_is_ordered(cols * cell_width, term_width, cell_width);
    } else {
        if term_width < cols * cell_width {
            assert(cell_width * cols == cols * cell_width) by (nonlinear_arith);
            lemma_multiply_divide_lt(term_width, cell_width, cols);
        }
    }
}

/// The window's rows and columns fit on the terminal, but for a single row
/// or column that is always shown.
pub open spec fn on_screen(v: Viewport, cell_width: int, term_width: int, term_height: int) -> bool {
    &&& (v.visible_rows == 1 || 2 * v.visible_rows <= term_height)
    &&& (v.visible_cols == 1 || v.visible_cols * cell_width <= term_width)
}

impl Viewport {
    /// The window onto a grid of `cols` by `rows` cells drawn in columns of
    /// `cell_width` on a terminal of `term_width` by `term_height`, scrolled
    /// by the least amount that keeps the cursor at (`cursor_col`,
    /// `cursor_row`) in view.
    pub fn compute(
        cols: usize,
        rows: usize,
        cell_width: usize,
        term_width: u16,
        term_height: u16,
        cursor_col: usize,
        cursor_row: usize,
    ) -> (v: Viewport)
        requires
            cell_width >= 1,
            cursor_col < cols,
            cursor_row < rows,
        ensures
            v.visible_rows == visible_row_count(rows as int, term_height as int),
            v.visible_cols == visible_col_count(cols as int, cell_width as int, term_width as int),
            v.row_skip == skip_for(cursor_row as int, v.visible_rows as int),
            v.col_skip == skip_for(cursor_col as int, v.visible_cols as int),
            1 <= v.visible_rows <= rows,
            1 <= v.visible_cols <= cols,
            v.row_skip <= cursor_row < v.row_skip + v.visible_rows,
            v.col_skip <= cursor_col < v.col_skip + v.visible_cols,
            v.row_skip + v.visible_rows <= rows,
            v.col_skip + v.visible_cols <= cols,
            v.row_skip > 0 ==> cursor_row == v.row_skip + v.visible_rows - 1,
            v.col_skip > 0 ==> cursor_col == v.col_skip + v.visible_cols - 1,
            on_screen(v, cell_width as int, term_width as int, term_height as int),
    {
        let content: u16 = if term_height >= CHROME_ROWS {
            term_height - CHROME_ROWS
        } else {
            0
        };
        let half: usize = (content / 2) as usize;
        let fit_rows: usize = if rows < half {
            rows
        } else {
            half
        };
        let visible_rows: usize = if fit_rows >= 1 {
            fit_rows
        } else {
            1
        };
        let across: usize = term_width as usize / cell_width;
        let fit_cols: usize = if cols < across {
            cols
        } else {
            across
        };
        let visible_cols: usize = if fit_cols >= 1 {
            fit_cols
        } else {
            1
        };
        proof {
            lemma_rows_fit(rows as int, content as int);
            lemma_cols_fit(cols as int, cell_width as int, term_width as int);
            assert((term_width as int / cell_width as int) * cell_width <= term_width) by (nonlinear_arith)
                requires
                    cell_width >= 1,
                    term_width >= 0,
            ;
            if visible_cols > 1 {
                assert(visible_cols * cell_width <= (term_width as int / cell_width as int) * cell_width)
                    by (nonlinear_arith)
                    requires
                        visible_cols <= term_width as int / cell_width as int,
                        cell_width >= 1,
                ;
            }
        }
        let row_skip: usize = if cursor_row + 1 > visible_rows {
            cursor_row + 1 - visible_rows
        } else {
            0
        };
        let col_skip: usize = if cursor_col + 1 > visible_cols {
            cursor_col + 1 - visible_cols
        } else {
            0
        };
        Viewport { row_skip, col_skip, visible_rows, visible_cols }
    }
}

/// The indicator for a cursor at `pos` in a window of `visible` lines: on
/// the window's last line, scrolled, or inside the first window.
pub fn indicator(pos: usize, visible: usize) -> (r: Indicator)
    ensures
        r == indicator_of(pos as int, visible as int),
{
    if pos >= visible {
        Indicator::Scrolled
    } else if visible - pos == 1 {
        Indicator::Boundary
    } else {
        Indicator::Within
    }
}

/// The glyphs shown for the vertical and the horizontal indicator.
pub open spec fn arrow_glyphs(vertical: Indicator, horizontal: Indicator) -> (char, char) {
    (
        match vertical {
            Indicator::Boundary => '⚫',
            Indicator::Scrolled => '▼',
            Indicator::Within => '▲',
        },
        match horizontal {
            Indicator::Boundary => '⚫',
            Indicator::Scrolled => '▶',
            Indicator::Within => '◀',
        },
    )
}

/// The two indicator glyphs, vertical first, for the cursor at
/// (`cursor_col`, `cursor_row`) in the window `v`.
pub fn arrows(v: &Viewport, cursor_col: usize, cursor_row: usize) -> (r: (char, char))
    ensures
        r == arrow_glyphs(
            indicator_of(cursor_row as int, v.visible_rows as int),
            indicator_of(cursor_col as int, v.visible_cols as int),
        ),
{
    let vertical = match indicator(cursor_row, v.visible_rows) {
        Indicator::Boundary => '⚫',
        Indicator::Scrolled => '▼',
        Indicator::Within => '▲',
    };
    let horizontal = match indicator(cursor_col, v.visible_cols) {
        Indicator::Boundary => '⚫',
        Indicator::Scrolled => '▶',
        Indicator::Within => '◀',
    };
    (vertical, horizontal)
}

} // verus!
