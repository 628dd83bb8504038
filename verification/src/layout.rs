use vstd::prelude::*;

use crate::geometry::Point;
use crate::geometry::Rect;
use crate::geometry::Size;
use crate::pager::Candidate;

verus! {

/// The sum of a sequence of widths.
pub open spec fn sum_i32(s: Seq<i32>) -> int
    decreases s.len(),
{
    if s.len() == 0 {
        0
    } else {
        sum_i32(s.drop_last()) + s.last()
    }
}

pub open spec fn fits_i32(v: int) -> bool {
    i32::MIN <= v <= i32::MAX
}

/// Every running sum of the first `n` widths fits in an `i32`.
pub open spec fn prefix_sums_fit(s: Seq<i32>, n: int) -> bool {
    forall|k: int| 0 <= k <= n ==> #[trigger] fits_i32(sum_i32(s.take(k)))
}

pub open spec fn spec_max(a: int, b: int) -> int {
    if a >= b {
        a
    } else {
        b
    }
}

/// A grid of candidate cells: the columns have their own widths, all rows the
/// same height, with padding added below each row.
#[derive(Default)]
pub struct Grid {
    pub cols: usize,
    pub col_widths: Vec<i32>,
    pub rows: usize,
    pub row_height: i32,
    pub row_padding: i32,
}

/// A cell of the grid.
#[derive(PartialEq, Eq, Structural, Clone, Copy, Debug)]
pub struct GridCell {
    pub row: usize,
    pub col: usize,
}

impl Grid {
    /// The height of a row including its padding.
    pub open spec fn spec_row_height(&self) -> int {
        self.row_height + self.row_padding
    }

    /// The left edge of a column: the widths of the columns before it.
    pub open spec fn col_left(&self, col: int) -> int {
        sum_i32(self.col_widths@.take(col))
    }

    /// The rectangle of a cell.
    pub open spec fn spec_cell_rect(&self, row: int, col: int) -> Rect {
        Rect {
            origin: Point {
                x: self.col_left(col) as i32,
                y: ((row as i32) * self.spec_row_height()) as i32,
            },
            width: self.col_widths@[col],
            height: self.spec_row_height() as i32,
        }
    }

    /// The cell's rectangle can be computed without overflow.
    pub open spec fn cell_defined(&self, row: int, col: int) -> bool {
        &&& 0 <= row < self.rows
        &&& 0 <= col < self.cols
        &&& col < self.col_widths@.len()
        &&& prefix_sums_fit(self.col_widths@, col)
        &&& fits_i32(self.spec_row_height())
        &&& fits_i32((row as i32) * self.spec_row_height())
    }

    /// Every cell's rectangle can be computed without overflow.
    pub open spec fn cells_defined(&self) -> bool {
        forall|row: int, col: int|
            0 <= row < self.rows && 0 <= col < self.cols ==> #[trigger] self.cell_defined(row, col)
    }

    pub open spec fn spec_contains(&self, row: int, col: int, pt: Point) -> bool {
        self.spec_cell_rect(row, col).spec_contains(pt)
    }

    /// The cell that `hit_test` reports: the first cell, going column by column
    /// and top to bottom within a column, that covers the point.
    pub open spec fn is_first_hit(&self, cell: GridCell, pt: Point) -> bool {
        &&& cell.row < self.rows
        &&& cell.col < self.cols
        &&& self.spec_contains(cell.row as int, cell.col as int, pt)
        &&& forall|row: int, col: int|
            0 <= row < self.rows && 0 <= col < self.cols && (col < cell.col || (col == cell.col
                && row < cell.row)) ==> !#[trigger] self.spec_contains(row, col, pt)
    }

    /// A grid of `num_rows` by `num_cols` cells, every column `min_col_width`
    /// wide, rows of height zero.
    pub fn new(num_rows: usize, num_cols: usize, min_col_width: i32, row_padding: i32) -> (r: Self)
        ensures
            r.cols == num_cols,
            r.rows == num_rows,
            r.col_widths@ == Seq::new(num_cols as nat, |i: int| min_col_width),
            r.row_height == 0,
            r.row_padding == row_padding,
    {
        let col_widths = vec![min_col_width; num_cols];
        proof {
            assert(col_widths@ =~= Seq::new(num_cols as nat, |i: int| min_col_width));
        }
        Self { cols: num_cols, col_widths, rows: num_rows, row_height: 0, row_padding }
    }

    /// Widens column `col` to at least `width`.
    pub fn ensure_col_width(&mut self, col: usize, width: i32)
        requires
            col < old(self).cols,
            col < old(self).col_widths@.len(),
        ensures
            final(self).col_widths@ == old(self).col_widths@.update(
                col as int,
                spec_max(old(self).col_widths@[col as int] as int, width as int) as i32,
            ),
            final(self).cols == old(self).cols,
            final(self).rows == old(self).rows,
            final(self).row_height == old(self).row_height,
            final(self).row_padding == old(self).row_padding,
    {
        let cur = self.col_widths[col];
        let w = if cur >= width {
            cur
        } else {
            width
        };
        self.col_widths.set(col, w);
    }

    /// Raises the row height to at least `height`.
    pub fn ensure_row_height(&mut self, height: i32)
        ensures
            final(self).row_height == spec_max(old(self).row_height as int, height as int),
            final(self).col_widths@ == old(self).col_widths@,
            final(self).cols == old(self).cols,
            final(self).rows == old(self).rows,
            final(self).row_padding == old(self).row_padding,
    {
        if height > self.row_height {
            self.row_height = height;
        }
    }

    /// The height of a row including its padding.
    pub fn row_height(&self) -> (r: i32)
        requires
            fits_i32(self.spec_row_height()),
        ensures
            r == self.spec_row_height(),
    {
        self.row_height + self.row_padding
    }

    /// The rectangle of the cell at `row`, `col`.
    pub fn cell_rect(&self, row: usize, col: usize) -> (r: Rect)
        requires
            self.cell_defined(row as int, col as int),
        ensures
            r == self.spec_cell_rect(row as int, col as int),
    {
        let mut left: i32 = 0;
        let mut i: usize = 0;
        while i < col
            invariant
                i <= col,
                col < self.col_widths@.len(),
                prefix_sums_fit(self.col_widths@, col as int),
                left == sum_i32(self.col_widths@.take(i as int)),
            decreases col - i,
        {
            proof {
                assert(self.col_widths@.take(i + 1).drop_last() =~= self.col_widths@.take(
                    i as int,
                ));
                assert(fits_i32(sum_i32(self.col_widths@.take(i + 1))));
            }
            left = left + self.col_widths[i];
            i = i + 1;
        }
        let rh = self.row_height();
        let top = (row as i32) * rh;
        Rect { origin: Point { x: left, y: top }, width: self.col_widths[col], height: rh }
    }

    /// The size of the whole grid: all column widths side by side, and the rows
    /// with padding above the first row and below every row.
    pub fn grid_size(&self) -> (r: Size)
        requires
            prefix_sums_fit(self.col_widths@, self.col_widths@.len() as int),
            fits_i32((self.rows as i32) * self.row_height),
            fits_i32((self.rows as i32) + 1),
            fits_i32(((self.rows as i32) + 1) * self.row_padding),
            fits_i32((self.rows as i32) * self.row_height + ((self.rows as i32) + 1)
                * self.row_padding),
        ensures
            r.w == sum_i32(self.col_widths@),
            r.h == (self.rows as i32) * self.row_height + ((self.rows as i32) + 1)
                * self.row_padding,
    {
        let n = self.col_widths.len();
        let mut width: i32 = 0;
        let mut i: usize = 0;
        while i < n
            invariant
                i <= n,
                n == self.col_widths@.len(),
                prefix_sums_fit(self.col_widths@, n as int),
                width == sum_i32(self.col_widths@.take(i as int)),
            decreases n - i,
        {
            proof {
                assert(self.col_widths@.take(i + 1).drop_last() =~= self.col_widths@.take(
                    i as int,
                ));
                assert(fits_i32(sum_i32(self.col_widths@.take(i + 1))));
            }
            width = width + self.col_widths[i];
            i = i + 1;
        }
        assert(self.col_widths@.take(n as int) =~= self.col_widths@);
        let rows = self.rows as i32;
        let height = rows * self.row_height + (rows + 1) * self.row_padding;
        Size { w: width, h: height }
    }

    /// The cell under `pt`, searching column by column.
    pub fn hit_test(&self, pt: Point) -> (r: Option<GridCell>)
        requires
            self.cells_defined(),
        ensures
            match r {
                Some(cell) => self.is_first_hit(cell, pt),
                None => forall|row: int, col: int|
                    0 <= row < self.rows && 0 <= col < self.cols ==> !#[trigger] self.spec_contains(
                        row,
                        col,
                        pt,
                    ),
            },
    {
        let mut col: usize = 0;
        while col < self.cols
            invariant
                col <= self.cols,
                self.cells_defined(),
                forall|r: int, c: int|
                    0 <= r < self.rows && 0 <= c < col ==> !#[trigger] self.spec_contains(r, c, pt),
            decreases self.cols - col,
        {
            let mut row: usize = 0;
            while row < self.rows
                invariant
                    row <= self.rows,
                    col < self.cols,
                    self.cells_defined(),
                    forall|r: int, c: int|
                        0 <= r < self.rows && 0 <= c < col ==> !#[trigger] self.spec_contains(
                            r,
                            c,
                            pt,
                        ),
                    forall|r: int| 0 <= r < row ==> !#[trigger] self.spec_contains(r, col as int, pt),
                decreases self.rows - row,
            {
                assert(self.cell_defined(row as int, col as int));
                let rect = self.cell_rect(row, col);
                if rect.contains(pt) {
                    return Some(GridCell { row, col });
                }
                row = row + 1;
            }
            col = col + 1;
        }
        None
    }
}

// ---------------------------------------------------------------------------
// Laws
// ---------------------------------------------------------------------------

/// With non-negative widths, the left edges of the columns never go back.
pub proof fn lemma_col_left_monotone(widths: Seq<i32>, a: int, b: int)
    requires
        0 <= a <= b <= widths.len(),
        forall|i: int| 0 <= i < widths.len() ==> #[trigger] widths[i] >= 0,
    ensures
        sum_i32(widths.take(a)) <= sum_i32(widths.take(b)),
    decreases b - a,
{
    if a < b {
        lemma_col_left_monotone(widths, a, b - 1);
        assert(widths.take(b).drop_last() =~= widths.take(b - 1));
    }
}

/// The right edge of a column is the left edge of the next.
pub proof fn lemma_col_right(widths: Seq<i32>, c: int)
    requires
        0 <= c < widths.len(),
    ensures
        sum_i32(widths.take(c + 1)) == sum_i32(widths.take(c)) + widths[c],
{
    assert(widths.take(c + 1).drop_last() =~= widths.take(c));
}

/// When the column widths and the row height are not negative, no two cells
/// of the grid overlap, so a point is covered by at most one cell and
/// `hit_test` finds that cell.
pub proof fn lemma_cells_disjoint(g: Grid, r1: int, c1: int, r2: int, c2: int, pt: Point)
    requires
        g.cells_defined(),
        g.cols <= g.col_widths@.len(),
        forall|i: int| 0 <= i < g.col_widths@.len() ==> #[trigger] g.col_widths@[i] >= 0,
        g.spec_row_height() >= 0,
        g.rows <= i32::MAX,
        0 <= r1 < g.rows,
        0 <= c1 < g.cols,
        0 <= r2 < g.rows,
        0 <= c2 < g.cols,
        g.spec_contains(r1, c1, pt),
        g.spec_contains(r2, c2, pt),
    ensures
        r1 == r2,
        c1 == c2,
{
    assert(g.cell_defined(r1, c1));
    assert(g.cell_defined(r2, c2));
    let w = g.col_widths@;
    let rh = g.spec_row_height();
    if c1 != c2 {
        let (lo, hi) = if c1 < c2 {
            (c1, c2)
        } else {
            (c2, c1)
        };
        lemma_col_right(w, lo);
        lemma_col_left_monotone(w, lo + 1, hi);
        assert(fits_i32(sum_i32(w.take(c1))));
        assert(fits_i32(sum_i32(w.take(c2))));
    }
    if r1 != r2 {
        let (lo, hi) = if r1 < r2 {
            (r1, r2)
        } else {
            (r2, r1)
        };
        assert((lo as i32) as int == lo);
        assert((hi as i32) as int == hi);
        assert(lo * rh + rh <= hi * rh) by (nonlinear_arith)
            requires
                lo < hi,
                rh >= 0,
        ;
        assert(fits_i32((r1 as i32) * rh));
        assert(fits_i32((r2 as i32) * rh));
    }
}

/// With non-negative column widths, row height and padding, the cells tile
/// the grid and lie inside its size: each cell starts where the cell to its
/// left ends, no cell starts left of or above the origin, and every cell ends
/// within the width and height that `grid_size` gives.
pub proof fn lemma_cells_inside_grid(g: Grid, row: int, col: int)
    requires
        g.cells_defined(),
        g.cols <= g.col_widths@.len(),
        forall|i: int| 0 <= i < g.col_widths@.len() ==> #[trigger] g.col_widths@[i] >= 0,
        g.row_height >= 0,
        g.row_padding >= 0,
        g.rows <= i32::MAX,
        prefix_sums_fit(g.col_widths@, g.col_widths@.len() as int),
        0 <= row < g.rows,
        0 <= col < g.cols,
    ensures
        g.spec_cell_rect(row, col).origin.x >= 0,
        g.spec_cell_rect(row, col).origin.y >= 0,
        g.spec_cell_rect(row, col).origin.x + g.spec_cell_rect(row, col).width <= sum_i32(
            g.col_widths@,
        ),
        g.spec_cell_rect(row, col).origin.y + g.spec_cell_rect(row, col).height <= (g.rows as i32)
            * g.row_height + ((g.rows as i32) + 1) * g.row_padding,
        col + 1 < g.cols ==> g.spec_cell_rect(row, col + 1).origin.x == g.spec_cell_rect(
            row,
            col,
        ).origin.x + g.spec_cell_rect(row, col).width,
{
    assert(g.cell_defined(row, col));
    let w = g.col_widths@;
    let n = w.len() as int;
    lemma_col_right(w, col);
    lemma_col_left_monotone(w, 0, col);
    lemma_col_left_monotone(w, col + 1, n);
    assert(w.take(0) =~= Seq::<i32>::empty());
    assert(w.take(n) =~= w);
    assert(fits_i32(sum_i32(w.take(col))));
    assert(fits_i32(sum_i32(w.take(col + 1))));
    if col + 1 < g.cols {
        assert(g.cell_defined(row, col + 1));
    }
    let rh = g.spec_row_height();
    let rows = g.rows as int;
    assert((row as i32) as int == row);
    assert((g.rows as i32) as int == rows);
    assert(row * rh >= 0 && row * rh + rh <= rows * g.row_height + (rows + 1) * g.row_padding)
        by (nonlinear_arith)
        requires
            0 <= row < rows,
            rh == g.row_height + g.row_padding,
            g.row_height >= 0,
            g.row_padding >= 0,
    ;
}

/// With non-negative widths and row height, the hit test finds exactly the
/// cell that covers the point, when there is one.
pub proof fn lemma_hit_test_unique(g: Grid, cell: GridCell, row: int, col: int, pt: Point)
    requires
        g.cells_defined(),
        g.cols <= g.col_widths@.len(),
        forall|i: int| 0 <= i < g.col_widths@.len() ==> #[trigger] g.col_widths@[i] >= 0,
        g.spec_row_height() >= 0,
        g.rows <= i32::MAX,
        g.is_first_hit(cell, pt),
        0 <= row < g.rows,
        0 <= col < g.cols,
        g.spec_contains(row, col, pt),
    ensures
        cell.row == row,
        cell.col == col,
{
    lemma_cells_disjoint(g, cell.row as int, cell.col as int, row, col, pt);
}

// ---------------------------------------------------------------------------
// Candidate layout
// ---------------------------------------------------------------------------

/// A candidate with its text layout and the measured extent of that layout.
pub struct MeasuredCandidate<L> {
    pub candidate: Candidate,
    pub layout: L,
    pub width: i32,
    pub height: i32,
}

/// The widest cell of a column: at least `min`, and every measured width plus
/// `extra`.
pub open spec fn widest<L>(min: int, col: Seq<MeasuredCandidate<L>>, extra: int) -> int
    decreases col.len(),
{
    if col.len() == 0 {
        min
    } else {
        spec_max(widest(min, col.drop_last(), extra), col.last().width + extra)
    }
}

/// The tallest measured height of a column, at least `h`.
pub open spec fn tallest_in<L>(h: int, col: Seq<MeasuredCandidate<L>>) -> int
    decreases col.len(),
{
    if col.len() == 0 {
        h
    } else {
        spec_max(tallest_in(h, col.drop_last()), col.last().height as int)
    }
}

/// The tallest measured height of all columns, at least zero.
pub open spec fn tallest<L>(cols: Seq<Vec<MeasuredCandidate<L>>>) -> int
    decreases cols.len(),
{
    if cols.len() == 0 {
        0
    } else {
        tallest_in(tallest(cols.drop_last()), cols.last()@)
    }
}

/// Every measured width plus the quick-select column plus the padding on
/// both sides can be added up in an `i32`.
pub open spec fn widths_fit<L>(cols: Seq<Vec<MeasuredCandidate<L>>>, qs: int, pad: int) -> bool {
    forall|i: int, j: int|
        0 <= i < cols.len() && 0 <= j < cols[i]@.len() ==> #[trigger] fits_i32(
            cols[i]@[j].width + qs,
        ) && fits_i32(pad * 2) && fits_i32(cols[i]@[j].width + qs + pad * 2)
}

/// The candidates of a page laid out on a grid, with their text layouts.
pub struct CandidateLayout<L> {
    pub items: Vec<Vec<(Candidate, L)>>,
    pub grid: Grid,
}

impl<L> CandidateLayout<L> {
    /// Lays out the measured candidates, column by column: a column is as
    /// wide as its widest text plus the quick-select column and padding on
    /// both sides (and at least `min_col_width`), and the rows as tall as the
    /// tallest text. There is no layout without columns.
    pub fn new(
        cols: Vec<Vec<MeasuredCandidate<L>>>,
        min_col_width: i32,
        row_padding: i32,
        qs_col_width: i32,
    ) -> (r: Option<Self>)
        requires
            widths_fit(cols@, qs_col_width as int, row_padding as int),
        ensures
            cols@.len() == 0 <==> r is None,
            r matches Some(lay) ==> {
                &&& lay.grid.cols == cols@.len()
                &&& lay.grid.rows == cols@[0]@.len()
                &&& lay.grid.row_padding == row_padding
                &&& lay.grid.row_height == tallest(cols@)
                &&& lay.grid.col_widths@.len() == cols@.len()
                &&& forall|i: int|
                    0 <= i < cols@.len() ==> #[trigger] lay.grid.col_widths@[i] == widest(
                        min_col_width as int,
                        cols@[i]@,
                        qs_col_width + row_padding * 2,
                    )
                &&& lay.items@.len() == cols@.len()
                &&& forall|i: int|
                    0 <= i < cols@.len() ==> (#[trigger] lay.items@[i])@.len() == cols@[i]@.len()
                        && forall|j: int|
                        0 <= j < cols@[i]@.len() ==> #[trigger] lay.items@[i]@[j] == (
                            cols@[i]@[j].candidate,
                            cols@[i]@[j].layout,
                        )
            },
    {
        let n_cols = cols.len();
        if n_cols == 0 {
            return None;
        }
        let n_rows = cols[0].len();
        let ghost extra = qs_col_width + row_padding * 2;
        let mut grid = Grid::new(n_rows, n_cols, min_col_width, row_padding);
        let mut items: Vec<Vec<(Candidate, L)>> = Vec::new();
        let ghost all = cols@;
        let mut rest = cols;
        let mut i: usize = 0;
        while i < n_cols
            invariant
                n_cols == all.len(),
                i <= n_cols,
                rest@ == all.skip(i as int),
                grid.cols == n_cols,
                grid.rows == n_rows,
                grid.row_padding == row_padding,
                grid.col_widths@.len() == n_cols,
                grid.row_height == tallest(all.take(i as int)),
                extra == qs_col_width + row_padding * 2,
                widths_fit(all, qs_col_width as int, row_padding as int),
                forall|k: int|
                    0 <= k < i ==> #[trigger] grid.col_widths@[k] == widest(
                        min_col_width as int,
                        all[k]@,
                        extra as int,
                    ),
                forall|k: int| i <= k < n_cols ==> #[trigger] grid.col_widths@[k] == min_col_width,
                items@.len() == i,
                forall|k: int|
                    0 <= k < i ==> (#[trigger] items@[k])@.len() == all[k]@.len() && forall|j: int|
                        0 <= j < all[k]@.len() ==> #[trigger] items@[k]@[j] == (
                            all[k]@[j].candidate,
                            all[k]@[j].layout,
                        ),
            decreases n_cols - i,
        {
            let col = rest.remove(0);
            assert(col@ == all[i as int]@);
            let ghost col_all = col@;
            let m = col.len();
            let mut cells = col;
            let mut layout_col: Vec<(Candidate, L)> = Vec::new();
            let ghost h0 = grid.row_height as int;
            let ghost widths0 = grid.col_widths@;
            let mut j: usize = 0;
            while j < m
                invariant
                    m == col_all.len(),
                    j <= m,
                    i < n_cols,
                    n_cols == all.len(),
                    col_all == all[i as int]@,
                    cells@ == col_all.skip(j as int),
                    grid.cols == n_cols,
                    grid.rows == n_rows,
                    grid.row_padding == row_padding,
                    grid.col_widths@.len() == n_cols,
                    extra == qs_col_width + row_padding * 2,
                    widths_fit(all, qs_col_width as int, row_padding as int),
                    grid.row_height == tallest_in(h0, col_all.take(j as int)),
                    grid.col_widths@[i as int] == widest(
                        min_col_width as int,
                        col_all.take(j as int),
                        extra as int,
                    ),
                    forall|k: int|
                        0 <= k < n_cols && k != i ==> #[trigger] grid.col_widths@[k] == widths0[k],
                    widths0.len() == n_cols,
                    layout_col@.len() == j,
                    forall|k: int|
                        0 <= k < j ==> #[trigger] layout_col@[k] == (
                            col_all[k].candidate,
                            col_all[k].layout,
                        ),
                decreases m - j,
            {
                let cell = cells.remove(0);
                assert(cell == col_all[j as int]);
                assert(fits_i32(all[i as int]@[j as int].width + qs_col_width));
                proof {
                    assert(col_all.take(j + 1).drop_last() =~= col_all.take(j as int));
                    assert(col_all.skip(j + 1) =~= col_all.skip(j as int).drop_first());
                }
                grid.ensure_col_width(i, cell.width + qs_col_width + row_padding * 2);
                grid.ensure_row_height(cell.height);
                layout_col.push((cell.candidate, cell.layout));
                j = j + 1;
            }
            proof {
                assert(col_all.take(m as int) =~= col_all);
                assert(all.take(i + 1).drop_last() =~= all.take(i as int));
                assert(all.take(i + 1).last() == all[i as int]);
                assert(rest@ =~= all.skip(i + 1));
            }
            items.push(layout_col);
            i = i + 1;
        }
        assert(all.take(n_cols as int) =~= all);
        Some(CandidateLayout { items, grid })
    }

    /// The candidate in `row` of column `col`, with its layout.
    pub fn get(&self, row: usize, col: usize) -> (r: Option<&(Candidate, L)>)
        ensures
            (col < self.items@.len() && row < self.items@[col as int]@.len()) ==> r == Some(
                &self.items@[col as int]@[row as int],
            ),
            !(col < self.items@.len() && row < self.items@[col as int]@.len()) ==> r is None,
    {
        if col < self.items.len() && row < self.items[col].len() {
            Some(&self.items[col][row])
        } else {
            None
        }
    }

    /// The candidate under `pt`.
    pub fn hit_test(&self, pt: Point) -> (r: Option<Candidate>)
        requires
            self.grid.cells_defined(),
        ensures
            r matches Some(c) ==> exists|cell: GridCell|
                #[trigger] self.grid.is_first_hit(cell, pt) && cell.col < self.items@.len()
                    && cell.row < self.items@[cell.col as int]@.len() && c == self.items@[cell.col as int]@[cell.row as int].0,
            r is None ==> (forall|row: int, col: int|
                0 <= row < self.grid.rows && 0 <= col < self.grid.cols ==> !#[trigger] self.grid.spec_contains(row, col, pt))
                || exists|cell: GridCell|
                #[trigger] self.grid.is_first_hit(cell, pt) && !(cell.col < self.items@.len()
                    && cell.row < self.items@[cell.col as int]@.len()),
    {
        match self.grid.hit_test(pt) {
            Some(cell) => {
                match self.get(cell.row, cell.col) {
                    Some(item) => Some(item.0.clone()),
                    None => None,
                }
            },
            None => None,
        }
    }
}

/// The width given to a column is the least one that holds every candidate:
/// at least the minimum, at least each measured width plus `extra`, and equal
/// to one of these.
pub proof fn lemma_widest_holds_every_candidate<L>(
    min: int,
    col: Seq<MeasuredCandidate<L>>,
    extra: int,
)
    ensures
        widest(min, col, extra) >= min,
        forall|j: int| 0 <= j < col.len() ==> widest(min, col, extra) >= #[trigger] col[j].width
            + extra,
        widest(min, col, extra) == min || exists|j: int|
            0 <= j < col.len() && widest(min, col, extra) == #[trigger] col[j].width + extra,
    decreases col.len(),
{
    if col.len() > 0 {
        let init = col.drop_last();
        lemma_widest_holds_every_candidate(min, init, extra);
        assert forall|j: int| 0 <= j < col.len() implies widest(min, col, extra) >= #[trigger] col[
            j].width + extra by {
            if j < col.len() - 1 {
                assert(col[j] == init[j]);
            }
        }
        if widest(min, col, extra) != min && widest(min, col, extra) != col.last().width + extra {
            let j = choose|j: int|
                0 <= j < init.len() && widest(min, init, extra) == #[trigger] init[j].width + extra;
            assert(col[j] == init[j]);
        }
    }
}

/// The height of a column's cells is at least the starting height and each
/// measured height.
pub proof fn lemma_tallest_in_bounds<L>(h: int, col: Seq<MeasuredCandidate<L>>)
    ensures
        tallest_in(h, col) >= h,
        forall|j: int| 0 <= j < col.len() ==> tallest_in(h, col) >= #[trigger] col[j].height,
    decreases col.len(),
{
    if col.len() > 0 {
        let init = col.drop_last();
        lemma_tallest_in_bounds(h, init);
        assert forall|j: int| 0 <= j < col.len() implies tallest_in(h, col) >= #[trigger] col[
            j].height by {
            if j < col.len() - 1 {
                assert(col[j] == init[j]);
            }
        }
    }
}

/// The row height given to the grid holds every candidate of every column:
/// it is never negative and at least each measured height.
pub proof fn lemma_tallest_holds_every_candidate<L>(cols: Seq<Vec<MeasuredCandidate<L>>>)
    ensures
        tallest(cols) >= 0,
        forall|i: int, j: int|
            0 <= i < cols.len() && 0 <= j < cols[i]@.len() ==> tallest(cols) >= #[trigger] cols[i]@[
                j].height,
    decreases cols.len(),
{
    if cols.len() > 0 {
        let init = cols.drop_last();
        lemma_tallest_holds_every_candidate(init);
        lemma_tallest_in_bounds(tallest(init), cols.last()@);
        assert forall|i: int, j: int|
            0 <= i < cols.len() && 0 <= j < cols[i]@.len() implies tallest(cols) >= #[trigger] cols[
            i]@[j].height by {
            if i < cols.len() - 1 {
                assert(cols[i] == init[i]);
            }
        }
    }
}

} // verus!
