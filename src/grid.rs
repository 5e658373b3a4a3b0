use vstd::prelude::*;

verus! {

/// The text written into every cell that a resize adds.
pub open spec fn placeholder() -> Seq<char> {
    seq!['/']
}

/// The texts of one row of cells.
pub open spec fn row_text(r: Seq<String>) -> Seq<Seq<char>> {
    Seq::new(r.len(), |i: int| r[i]@)
}

/// The texts of a table of cells, row by row.
pub open spec fn table_text(d: Seq<Vec<String>>) -> Seq<Seq<Seq<char>>> {
    Seq::new(d.len(), |i: int| row_text(d[i]@))
}

/// A table that a grid can hold: at least one row, a non-empty first row,
/// and every row as long as the first.
pub open spec fn is_table(t: Seq<Seq<Seq<char>>>) -> bool {
    &&& t.len() >= 1
    &&& t[0].len() >= 1
    &&& forall|i: int| 0 <= i < t.len() ==> #[trigger] t[i].len() == t[0].len()
}

/// Every row cut or padded to `width` cells, and the rows cut or padded to
/// `height`; what is added holds the placeholder.
pub open spec fn resized(t: Seq<Seq<Seq<char>>>, width: nat, height: nat) -> Seq<Seq<Seq<char>>> {
    Seq::new(
        height,
        |r: int|
            Seq::new(
                width,
                |c: int|
                    if r < t.len() && c < t[r].len() {
                        t[r][c]
                    } else {
                        placeholder()
                    },
            ),
    )
}

fn placeholder_string() -> (r: String)
    ensures
        r@ == placeholder(),
{
    let r = String::from_str("/");
    proof {
        reveal_strlit("/");
    }
    r
}

/// Cuts or pads every row to `width` cells and the table to `height` rows,
/// filling what is new with the placeholder.
pub fn resize_data(data: &mut Vec<Vec<String>>, width: usize, height: usize)
    ensures
        table_text(final(data)@) == resized(table_text(old(data)@), width as nat, height as nat),
{
    let ghost old_t = table_text(data@);
    let mut out: Vec<Vec<String>> = Vec::new();
    let mut r: usize = 0;
    while r < height
        invariant
            r <= height,
            out@.len() == r,
            old_t == table_text(data@),
            forall|i: int|
                0 <= i < r ==> #[trigger] row_text(out@[i]@) == resized(
                    old_t,
                    width as nat,
                    height as nat,
                )[i],
        decreases height - r,
    {
        let mut row: Vec<String> = Vec::new();
        let mut c: usize = 0;
        while c < width
            invariant
                r < height,
                c <= width,
                row@.len() == c,
                old_t == table_text(data@),
                forall|j: int|
                    0 <= j < c ==> #[trigger] row@[j]@ == resized(
                        old_t,
                        width as nat,
                        height as nat,
                    )[r as int][j],
            decreases width - c,
        {
            let cell = if r < data.len() && c < data[r].len() {
                data[r][c].clone()
            } else {
                placeholder_string()
            };
            row.push(cell);
            c = c + 1;
        }
        assert(row_text(row@) =~= resized(old_t, width as nat, height as nat)[r as int]);
        out.push(row);
        r = r + 1;
    }
    assert(table_text(out@) =~= resized(old_t, width as nat, height as nat));
    *data = out;
}

/// Why a grid operation was refused.
#[derive(Clone, Copy, Debug, PartialEq, Eq, Structural)]
pub enum GridError {
    /// A column or row index past the grid's edge.
    OutOfBounds,
    /// A resize to zero columns or zero rows.
    EmptySize,
    /// Rows that are missing, empty or of unequal lengths.
    NotRectangular,
}

/// A rectangular table of text cells, and whether its first row is shown
/// as a header.
pub struct Grid {
    pub data: Vec<Vec<String>>,
    pub has_header: bool,
}

impl View for Grid {
    type V = Seq<Seq<Seq<char>>>;

    open spec fn view(&self) -> Seq<Seq<Seq<char>>> {
        table_text(self.data@)
    }
}

/// The number of columns of a table.
pub open spec fn column_count(t: Seq<Seq<Seq<char>>>) -> nat {
    t[0].len()
}

impl Grid {
    pub open spec fn wf(&self) -> bool {
        is_table(self@)
    }

    /// The grid that a session starts from when there is nothing to load:
    /// one column, with `Empty` above `0`.
    pub fn seed() -> (g: Grid)
        ensures
            g.wf(),
            g@ == seq![seq!["Empty"@], seq!["0"@]],
            !g.has_header,
    {
        let mut data: Vec<Vec<String>> = Vec::new();
        data.push(vec![String::from_str("Empty")]);
        data.push(vec![String::from_str("0")]);
        let g = Grid { data, has_header: false };
        assert(g@ =~= seq![seq!["Empty"@], seq!["0"@]]) by {
            assert(row_text(g.data@[0]@) =~= seq!["Empty"@]);
            assert(row_text(g.data@[1]@) =~= seq!["0"@]);
        }
        g
    }

    /// A grid over loaded rows, refused unless they form a table.
    pub fn from_rows(rows: Vec<Vec<String>>) -> (r: Result<Grid, GridError>)
        ensures
            is_table(table_text(rows@)) <==> r is Ok,
            r matches Ok(g) ==> g.wf() && g@ == table_text(rows@) && !g.has_header,
            r matches Err(e) ==> e == GridError::NotRectangular,
    {
        if rows.len() == 0 || rows[0].len() == 0 {
            return Err(GridError::NotRectangular);
        }
        let width = rows[0].len();
        let mut i: usize = 0;
        while i < rows.len()
            invariant
                i <= rows@.len(),
                rows@.len() >= 1,
                width == rows@[0].len(),
                forall|k: int| 0 <= k < i ==> #[trigger] rows@[k].len() == width,
            decreases rows@.len() - i,
        {
            if rows[i].len() != width {
                assert(table_text(rows@)[i as int].len() != table_text(rows@)[0].len());
                return Err(GridError::NotRectangular);
            }
            i = i + 1;
        }
        assert forall|k: int| 0 <= k < table_text(rows@).len() implies #[trigger] table_text(
            rows@,
        )[k].len() == table_text(rows@)[0].len() by {
            assert(rows@[k].len() == width);
        }
        Ok(Grid { data: rows, has_header: false })
    }

    /// The number of columns.
    pub fn cols(&self) -> (n: usize)
        requires
            self.wf(),
        ensures
            n == column_count(self@),
            n >= 1,
    {
        self.data[0].len()
    }

    /// The number of rows.
    pub fn rows(&self) -> (n: usize)
        requires
            self.wf(),
        ensures
            n == self@.len(),
            n >= 1,
    {
        self.data.len()
    }

    /// The text of the cell in column `col` of row `row`.
    pub fn get(&self, col: usize, row: usize) -> (r: Result<String, GridError>)
        requires
            self.wf(),
        ensures
            (col < column_count(self@) && row < self@.len()) <==> r is Ok,
            r matches Ok(s) ==> s@ == self@[row as int][col as int],
            r matches Err(e) ==> e == GridError::OutOfBounds,
    {
        if row >= self.data.len() || col >= self.data[0].len() {
            return Err(GridError::OutOfBounds);
        }
        assert(self@[row as int].len() == column_count(self@));
        Ok(self.data[row][col].clone())
    }

    /// Writes `text` into the cell in column `col` of row `row`.
    pub fn set(&mut self, col: usize, row: usize, text: String) -> (r: Result<(), GridError>)
        requires
            old(self).wf(),
        ensures
            final(self).wf(),
            final(self).has_header == old(self).has_header,
            (col < column_count(old(self)@) && row < old(self)@.len()) <==> r is Ok,
            r is Ok ==> final(self)@ == old(self)@.update(
                row as int,
                old(self)@[row as int].update(col as int, text@),
            ),
            r matches Err(e) ==> e == GridError::OutOfBounds && final(self)@ == old(self)@,
    {
        if row >= self.data.len() || col >= self.data[0].len() {
            return Err(GridError::OutOfBounds);
        }
        let ghost t = self@;
        assert(t[row as int].len() == column_count(t));
        let mut line = self.data[row].clone();
        line.set(col, text);
        self.data.set(row, line);
        assert(self@ =~= t.update(row as int, t[row as int].update(col as int, text@))) by {
            assert(row_text(self.data@[row as int]@) =~= t[row as int].update(col as int, text@));
        }
        assert forall|k: int| 0 <= k < self@.len() implies #[trigger] self@[k].len() == self@[0].len() by {
            assert(t[k].len() == t[0].len());
        }
        Ok(())
    }

    /// Resizes the grid to `width` columns and `height` rows, keeping the
    /// cells that remain inside and filling the new ones with the
    /// placeholder; a size of zero is refused.
    pub fn resize(&mut self, width: usize, height: usize) -> (r: Result<(), GridError>)
        requires
            old(self).wf(),
        ensures
            final(self).wf(),
            final(self).has_header == old(self).has_header,
            (width >= 1 && height >= 1) <==> r is Ok,
            r is Ok ==> final(self)@ == resized(old(self)@, width as nat, height as nat),
            r matches Err(e) ==> e == GridError::EmptySize && final(self)@ == old(self)@,
    {
        if width == 0 || height == 0 {
            return Err(GridError::EmptySize);
        }
        resize_data(&mut self.data, width, height);
        proof {
            lemma_resized_is_table(old(self)@, width as nat, height as nat);
        }
        Ok(())
    }
}

/// A resize to a non-zero size always yields a table.
pub proof fn lemma_resized_is_table(t: Seq<Seq<Seq<char>>>, width: nat, height: nat)
    requires
        width >= 1,
        height >= 1,
    ensures
        is_table(resized(t, width, height)),
        column_count(resized(t, width, height)) == width,
        resized(t, width, height).len() == height,
{
}

/// Reading a cell after a resize to `width` by `height`: the grid then has
/// exactly that many columns and rows, and each cell inside holds the old
/// cell where the old grid had one there, the placeholder elsewhere.
pub proof fn resize_then_get(t: Seq<Seq<Seq<char>>>, width: nat, height: nat, col: int, row: int)
    requires
        is_table(t),
        width >= 1,
        height >= 1,
        0 <= col < width,
        0 <= row < height,
    ensures
        is_table(resized(t, width, height)),
        column_count(resized(t, width, height)) == width,
        resized(t, width, height).len() == height,
        resized(t, width, height)[row][col] == if row < t.len() && col < column_count(t) {
            t[row][col]
        } else {
            placeholder()
        },
{
    lemma_resized_is_table(t, width, height);
    if row < t.len() {
        assert(t[row].len() == column_count(t));
    }
}

} // verus!
