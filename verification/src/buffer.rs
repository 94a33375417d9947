use vstd::prelude::*;
use crate::geometry::Glyph;
use crate::position::Position;

verus! {

/// The character a blank grid cell holds.
pub const BLANK: char = ' ';

/// The persistent character grid that committed shapes are written into.
///
/// The dimensions are fixed at construction; every cell always holds
/// exactly one character (a space when empty).
pub struct Buffer {
    pub cells: Vec<Vec<char>>,
}

/// `grid` with the one cell at `p` replaced by `glyph`.
pub open spec fn write_cell(grid: Seq<Seq<char>>, p: Position, glyph: char) -> Seq<Seq<char>> {
    grid.update(p.y as int, grid[p.y as int].update(p.x as int, glyph))
}

/// `grid` after stamping every glyph of `glyphs` in order, so that a
/// later glyph at the same cell wins.
pub open spec fn apply_glyphs(grid: Seq<Seq<char>>, glyphs: Seq<Glyph>) -> Seq<Seq<char>>
    decreases glyphs.len(),
{
    if glyphs.len() == 0 {
        grid
    } else {
        write_cell(apply_glyphs(grid, glyphs.drop_last()), glyphs.last().0, glyphs.last().1)
    }
}

/// The rows of a grid laid out as one line-oriented text: each row in
/// order, each followed by a single newline.
pub open spec fn text_of(grid: Seq<Seq<char>>) -> Seq<char>
    decreases grid.len(),
{
    if grid.len() == 0 {
        Seq::empty()
    } else {
        grid.first() + seq!['\n'] + text_of(grid.drop_first())
    }
}

/// The number of characters before the first newline of `t` (the length
/// of `t` if it holds none).
pub open spec fn row_break(t: Seq<char>) -> nat
    decreases t.len(),
{
    if t.len() == 0 {
        0
    } else if t.first() == '\n' {
        0
    } else {
        1 + row_break(t.drop_first())
    }
}

/// The rows a line-oriented reader recovers from `t`: the text split at
/// each newline, a trailing unterminated piece forming one last row.
pub open spec fn lines_of(t: Seq<char>) -> Seq<Seq<char>>
    decreases t.len(),
{
    if t.len() == 0 {
        Seq::empty()
    } else {
        let k = row_break(t);
        if k >= t.len() {
            seq![t]
        } else {
            seq![t.take(k as int)] + lines_of(t.skip(k as int + 1))
        }
    }
}

/// Writing one cell never changes the grid's dimensions.
pub proof fn lemma_write_cell_preserves_dims(grid: Seq<Seq<char>>, p: Position, glyph: char)
    requires
        0 <= p.y < grid.len(),
        0 <= p.x < grid[p.y as int].len(),
    ensures
        write_cell(grid, p, glyph).len() == grid.len(),
        forall|r: int|
            0 <= r < grid.len() ==> (#[trigger] write_cell(grid, p, glyph)[r]).len()
                == grid[r].len(),
{
    assert forall|r: int|
        0 <= r < grid.len() implies (#[trigger] write_cell(grid, p, glyph)[r]).len()
        == grid[r].len() by {
        if r == p.y as int {
            assert(write_cell(grid, p, glyph)[r] == grid[r].update(p.x as int, glyph));
        } else {
            assert(write_cell(grid, p, glyph)[r] == grid[r]);
        }
    }
}

/// Stamping any run of in-bounds glyphs never changes the grid's
/// dimensions.
pub proof fn lemma_apply_glyphs_preserves_dims(grid: Seq<Seq<char>>, glyphs: Seq<Glyph>)
    requires
        forall|i: int|
            0 <= i < glyphs.len() ==> {
                let p = (#[trigger] glyphs[i]).0;
                0 <= p.y < grid.len() && 0 <= p.x < grid[p.y as int].len()
            },
    ensures
        apply_glyphs(grid, glyphs).len() == grid.len(),
        forall|r: int|
            0 <= r < grid.len() ==> (#[trigger] apply_glyphs(grid, glyphs)[r]).len()
                == grid[r].len(),
    decreases glyphs.len(),
{
    if glyphs.len() > 0 {
        let prefix = glyphs.drop_last();
        assert forall|i: int| 0 <= i < prefix.len() implies {
            let p = (#[trigger] prefix[i]).0;
            0 <= p.y < grid.len() && 0 <= p.x < grid[p.y as int].len()
        } by {
            assert(prefix[i] == glyphs[i]);
        }
        lemma_apply_glyphs_preserves_dims(grid, prefix);
        let applied = apply_glyphs(grid, prefix);
        let glyph = glyphs.last();
        assert(glyph == glyphs[glyphs.len() - 1]);
        assert forall|r: int| 0 <= r < grid.len() implies (#[trigger] apply_glyphs(
            grid,
            glyphs,
        )[r]).len() == grid[r].len() by {
            if r == glyph.0.y as int {
                assert(apply_glyphs(grid, glyphs)[r] == applied[r].update(
                    glyph.0.x as int,
                    glyph.1,
                ));
            } else {
                assert(apply_glyphs(grid, glyphs)[r] == applied[r]);
            }
        }
    }
}

/// A newline-free row followed by a newline and anything: the first
/// break of the text falls exactly at the row's end.
proof fn lemma_row_break_of_terminated_row(row: Seq<char>, rest: Seq<char>)
    requires
        !row.contains('\n'),
    ensures
        row_break(row + seq!['\n'] + rest) == row.len(),
    decreases row.len(),
{
    let t = row + seq!['\n'] + rest;
    if row.len() == 0 {
        assert(t.first() == '\n');
    } else {
        assert(t.first() == row[0]);
        assert(row[0] != '\n') by {
            if row[0] == '\n' {
                assert(row.contains('\n'));
            }
        }
        let row_tail = row.drop_first();
        assert(!row_tail.contains('\n')) by {
            if row_tail.contains('\n') {
                let i = choose|i: int| 0 <= i < row_tail.len() && row_tail[i] == '\n';
                assert(row[i + 1] == '\n');
                assert(row.contains('\n'));
            }
        }
        assert(t.drop_first() =~= row_tail + seq!['\n'] + rest);
        lemma_row_break_of_terminated_row(row_tail, rest);
    }
}

/// Round-trip save: the line-oriented text of a grid, split back at its
/// newlines, yields exactly the original rows — character for
/// character, trailing blank cells included — provided no cell itself
/// holds a newline.
pub proof fn lemma_save_round_trip(grid: Seq<Seq<char>>)
    requires
        forall|i: int| 0 <= i < grid.len() ==> !(#[trigger] grid[i]).contains('\n'),
    ensures
        lines_of(text_of(grid)) == grid,
    decreases grid.len(),
{
    if grid.len() == 0 {
        assert(lines_of(text_of(grid)) =~= grid);
    } else {
        let row = grid.first();
        let rest = grid.drop_first();
        let t = text_of(grid);
        assert(row == grid[0]);
        lemma_row_break_of_terminated_row(row, text_of(rest));
        let k = row_break(t);
        assert(t.take(k as int) =~= row);
        assert(t.skip(k as int + 1) =~= text_of(rest));
        assert forall|i: int| 0 <= i < rest.len() implies !(#[trigger] rest[i]).contains('\n') by {
            assert(rest[i] == grid[i + 1]);
        }
        lemma_save_round_trip(rest);
        assert(lines_of(t) =~= grid);
    }
}

/// Appending one more row to a grid appends that row and a newline to
/// its text.
proof fn lemma_text_of_push(grid: Seq<Seq<char>>, row: Seq<char>)
    ensures
        text_of(grid.push(row)) == text_of(grid) + row + seq!['\n'],
    decreases grid.len(),
{
    if grid.len() == 0 {
        assert(grid.push(row).first() == row);
        assert(grid.push(row).drop_first() =~= Seq::<Seq<char>>::empty());
        assert(text_of(grid.push(row).drop_first()) =~= Seq::<char>::empty());
        assert(text_of(grid.push(row)) == row + seq!['\n'] + text_of(grid.push(row).drop_first()));
        assert(text_of(grid.push(row)) =~= text_of(grid) + row + seq!['\n']);
    } else {
        assert(grid.push(row).first() == grid.first());
        assert(grid.push(row).drop_first() =~= grid.drop_first().push(row));
        lemma_text_of_push(grid.drop_first(), row);
        assert(text_of(grid.push(row)) == grid.first() + seq!['\n'] + text_of(
            grid.drop_first().push(row),
        ));
        assert(text_of(grid) == grid.first() + seq!['\n'] + text_of(grid.drop_first()));
        assert(text_of(grid.push(row)) =~= text_of(grid) + row + seq!['\n']);
    }
}

impl Buffer {
    /// The grid as a mathematical sequence of rows of characters.
    pub open spec fn grid(self) -> Seq<Seq<char>> {
        self.cells@.map_values(|row: Vec<char>| row@)
    }

    /// The number of rows.
    pub open spec fn spec_height(self) -> int {
        self.grid().len() as int
    }

    /// The number of columns (of the first row; all rows agree when the
    /// buffer is well formed).
    pub open spec fn spec_width(self) -> int {
        self.grid()[0].len() as int
    }

    /// Well-formedness: the grid is non-empty in both dimensions, small
    /// enough that every cell is addressable by a `Position`, and every
    /// row has the same width.
    pub open spec fn wf(self) -> bool {
        &&& 1 <= self.spec_height() <= i16::MAX
        &&& 1 <= self.spec_width() <= i16::MAX
        &&& forall|i: int|
            0 <= i < self.spec_height() ==> (#[trigger] self.grid()[i]).len() == self.spec_width()
    }

    /// Whether `p` addresses a cell of the grid.
    pub open spec fn in_bounds(self, p: Position) -> bool {
        &&& 0 <= p.x < self.spec_width()
        &&& 0 <= p.y < self.spec_height()
    }

    /// A fresh grid of the given dimensions with every cell blank.
    #[verifier::loop_isolation(false)]
    pub fn new(width: usize, height: usize) -> (b: Buffer)
        requires
            1 <= width <= i16::MAX,
            1 <= height <= i16::MAX,
        ensures
            b.wf(),
            b.spec_width() == width,
            b.spec_height() == height,
            forall|i: int, j: int|
                0 <= i < height && 0 <= j < width ==> b.grid()[i][j] == BLANK,
    {
        let mut cells: Vec<Vec<char>> = Vec::new();
        let mut r: usize = 0;
        while r < height
            invariant
                r <= height,
                cells@.len() == r,
                forall|i: int|
                    0 <= i < r ==> (#[trigger] cells@[i])@.len() == width,
                forall|i: int, j: int|
                    0 <= i < r && 0 <= j < width ==> cells@[i]@[j] == BLANK,
            decreases height - r,
        {
            let mut row: Vec<char> = Vec::new();
            let mut c: usize = 0;
            while c < width
                invariant
                    c <= width,
                    row@.len() == c,
                    forall|j: int| 0 <= j < c ==> row@[j] == BLANK,
                decreases width - c,
            {
                row.push(BLANK);
                c = c + 1;
            }
            cells.push(row);
            r = r + 1;
        }
        let b = Buffer { cells };
        proof {
            assert(forall|i: int|
                0 <= i < b.grid().len() ==> (#[trigger] b.grid()[i]).len() == width);
        }
        b
    }

    /// The number of columns.
    pub fn width(&self) -> (w: usize)
        requires
            self.wf(),
        ensures
            w == self.spec_width(),
    {
        self.cells[0].len()
    }

    /// The number of rows.
    pub fn height(&self) -> (h: usize)
        requires
            self.wf(),
        ensures
            h == self.spec_height(),
    {
        self.cells.len()
    }

    /// Replaces the one cell at `position` with `glyph`.
    pub fn write(&mut self, position: Position, glyph: char)
        requires
            old(self).wf(),
            old(self).in_bounds(position),
        ensures
            final(self).wf(),
            final(self).spec_width() == old(self).spec_width(),
            final(self).spec_height() == old(self).spec_height(),
            final(self).grid() == write_cell(old(self).grid(), position, glyph),
    {
        let y = position.y as usize;
        let x = position.x as usize;
        proof {
            assert(self.cells@.len() == self.grid().len());
            assert(self.cells@[y as int]@ == self.grid()[y as int]);
        }
        self.cells[y][x] = glyph;
        proof {
            assert(self.grid() =~= write_cell(old(self).grid(), position, glyph));
        }
    }

    /// Stamps every glyph of `glyphs` into the grid, in order.
    #[verifier::loop_isolation(false)]
    pub fn commit_glyphs(&mut self, glyphs: &Vec<Glyph>)
        requires
            old(self).wf(),
            forall|i: int|
                0 <= i < glyphs@.len() ==> old(self).in_bounds((#[trigger] glyphs@[i]).0),
        ensures
            final(self).wf(),
            final(self).spec_width() == old(self).spec_width(),
            final(self).spec_height() == old(self).spec_height(),
            final(self).grid() == apply_glyphs(old(self).grid(), glyphs@),
    {
        let mut i: usize = 0;
        while i < glyphs.len()
            invariant
                i <= glyphs@.len(),
                self.wf(),
                self.spec_width() == old(self).spec_width(),
                self.spec_height() == old(self).spec_height(),
                self.grid() == apply_glyphs(old(self).grid(), glyphs@.take(i as int)),
            decreases glyphs@.len() - i,
        {
            let (p, c) = glyphs[i];
            self.write(p, c);
            i = i + 1;
            proof {
                assert(glyphs@.take(i as int).drop_last() =~= glyphs@.take(i as int - 1));
                assert(glyphs@.take(i as int).last() == glyphs@[i as int - 1]);
            }
        }
        proof {
            assert(glyphs@.take(glyphs@.len() as int) =~= glyphs@);
        }
    }

    /// The grid as an ordered list of rows of characters, ready for
    /// line-oriented output.
    #[verifier::loop_isolation(false)]
    pub fn serialize(&self) -> (rows: Vec<Vec<char>>)
        requires
            self.wf(),
        ensures
            rows@.map_values(|row: Vec<char>| row@) == self.grid(),
    {
        let height = self.cells.len();
        let mut rows: Vec<Vec<char>> = Vec::new();
        let mut r: usize = 0;
        while r < height
            invariant
                r <= height,
                rows@.len() == r,
                forall|i: int| 0 <= i < r ==> (#[trigger] rows@[i])@ == self.grid()[i],
            decreases height - r,
        {
            let row_len = self.cells[r].len();
            let mut row: Vec<char> = Vec::new();
            let mut c: usize = 0;
            while c < row_len
                invariant
                    c <= row_len,
                    r < height,
                    row_len == self.grid()[r as int].len(),
                    row@ == self.grid()[r as int].take(c as int),
                decreases row_len - c,
            {
                row.push(self.cells[r][c]);
                c = c + 1;
                proof {
                    assert(row@ =~= self.grid()[r as int].take(c as int));
                }
            }
            proof {
                assert(row@ =~= self.grid()[r as int]);
            }
            rows.push(row);
            r = r + 1;
        }
        proof {
            assert(rows@.map_values(|row: Vec<char>| row@) =~= self.grid());
        }
        rows
    }

    /// The whole grid as one line-oriented text: each row in order, each
    /// followed by a newline, exactly as the save dialog writes it out.
    #[verifier::loop_isolation(false)]
    pub fn to_text(&self) -> (text: Vec<char>)
        requires
            self.wf(),
        ensures
            text@ == text_of(self.grid()),
    {
        let mut text: Vec<char> = Vec::new();
        let height = self.cells.len();
        let mut r: usize = 0;
        proof {
            assert(self.grid().take(0) =~= Seq::<Seq<char>>::empty());
        }
        while r < height
            invariant
                r <= height,
                text@ == text_of(self.grid().take(r as int)),
            decreases height - r,
        {
            let row_len = self.cells[r].len();
            let mut c: usize = 0;
            while c < row_len
                invariant
                    c <= row_len,
                    r < height,
                    row_len == self.grid()[r as int].len(),
                    text@ == text_of(self.grid().take(r as int)) + self.grid()[r as int].take(
                        c as int,
                    ),
                decreases row_len - c,
            {
                text.push(self.cells[r][c]);
                c = c + 1;
                proof {
                    assert(text@ =~= text_of(self.grid().take(r as int)) + self.grid()[r as int]
                        .take(c as int));
                }
            }
            text.push('\n');
            proof {
                lemma_text_of_push(self.grid().take(r as int), self.grid()[r as int]);
                assert(self.grid().take(r as int).push(self.grid()[r as int]) =~= self.grid().take(
                    r as int + 1,
                ));
                assert(self.grid()[r as int].take(c as int) =~= self.grid()[r as int]);
                assert(text@ =~= text_of(self.grid().take(r as int + 1)));
            }
            r = r + 1;
        }
        proof {
            assert(self.grid().take(height as int) =~= self.grid());
        }
        text
    }
}

} // verus!
