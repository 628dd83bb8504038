use vstd::prelude::*;

verus! {

/// How a candidate cell is drawn.
#[derive(PartialEq, Eq, Structural, Clone, Copy, Debug)]
pub struct CellStyle {
    /// Draw the focused background.
    pub focused_background: bool,
    /// Draw the focus marker bubble.
    pub bubble: bool,
    /// Draw the quick-select label.
    pub quick_select: bool,
    /// The quick-select label is drawn in the active (not greyed) colour.
    pub quick_select_active: bool,
}

/// The style of a cell: its background shows focus by the keyboard or by the
/// mouse, the bubble only keyboard focus, and quick-select labels are drawn in
/// the focused column, greyed unless quick select is active.
pub open spec fn spec_cell_style(
    cand_id: i32,
    focused_id: i32,
    mouse_focused_id: u32,
    in_focused_col: bool,
    quickselect_active: bool,
) -> CellStyle {
    CellStyle {
        focused_background: cand_id == focused_id || cand_id == mouse_focused_id as i32,
        bubble: cand_id == focused_id,
        quick_select: in_focused_col,
        quick_select_active: quickselect_active,
    }
}

/// The style of a cell, as `spec_cell_style` says: its background shows focus by the keyboard or by the
/// mouse, the bubble only keyboard focus, and quick-select labels are drawn in
/// the focused column, greyed unless quick select is active.
pub fn cell_style(
    cand_id: i32,
    focused_id: i32,
    mouse_focused_id: u32,
    col_idx: usize,
    focused_col: usize,
    quickselect_active: bool,
) -> (r: CellStyle)
    ensures
        r == spec_cell_style(
            cand_id,
            focused_id,
            mouse_focused_id,
            col_idx == focused_col,
            quickselect_active,
        ),
{
    let is_focused = cand_id == focused_id || cand_id == mouse_focused_id as i32;
    let has_bubble = cand_id == focused_id;
    CellStyle {
        focused_background: is_focused,
        bubble: is_focused && has_bubble,
        quick_select: col_idx == focused_col,
        quick_select_active: quickselect_active,
    }
}

/// What is drawn in one cell of the candidate window: its place, the number
/// of its quick-select label, and its style.
#[derive(PartialEq, Eq, Structural, Clone, Copy, Debug)]
pub struct CellDraw {
    pub col: usize,
    pub row: usize,
    pub label: usize,
    pub style: CellStyle,
}

/// The number of cells in the columns before column `c`.
pub open spec fn cells_before(cols: Seq<Seq<i32>>, c: int) -> int
    decreases c,
{
    if c <= 0 {
        0
    } else {
        cells_before(cols, c - 1) + cols[c - 1].len()
    }
}

/// The candidate ids of the page's columns, as a sequence of sequences.
pub open spec fn ids_view(cols: Seq<Vec<i32>>) -> Seq<Seq<i32>> {
    cols.map_values(|c: Vec<i32>| c@)
}

/// What is drawn in row `k` of column `c`.
pub open spec fn spec_cell_draw(
    ids: Seq<Seq<i32>>,
    c: int,
    k: int,
    focused_id: i32,
    mouse_focused_id: u32,
    focused_col: usize,
    quickselect_active: bool,
) -> CellDraw {
    CellDraw {
        col: c as usize,
        row: k as usize,
        label: (cells_before(ids, c) + k + 1) as usize,
        style: spec_cell_style(
            ids[c][k],
            focused_id,
            mouse_focused_id,
            c == focused_col,
            quickselect_active,
        ),
    }
}

/// The cells of the first `n` columns in drawing order: column by column,
/// top to bottom.
pub open spec fn spec_draw_plan(
    ids: Seq<Seq<i32>>,
    n: int,
    focused_id: i32,
    mouse_focused_id: u32,
    focused_col: usize,
    quickselect_active: bool,
) -> Seq<CellDraw>
    decreases n,
{
    if n <= 0 {
        seq![]
    } else {
        spec_draw_plan(
            ids,
            n - 1,
            focused_id,
            mouse_focused_id,
            focused_col,
            quickselect_active,
        ) + Seq::new(
            ids[n - 1].len(),
            |k: int|
                spec_cell_draw(
                    ids,
                    n - 1,
                    k,
                    focused_id,
                    mouse_focused_id,
                    focused_col,
                    quickselect_active,
                ),
        )
    }
}

proof fn lemma_cells_before_monotone(cols: Seq<Seq<i32>>, a: int, b: int)
    requires
        0 <= a <= b <= cols.len(),
    ensures
        cells_before(cols, a) <= cells_before(cols, b),
    decreases b - a,
{
    if a < b {
        lemma_cells_before_monotone(cols, a, b - 1);
    }
}

/// The drawing plan of a page has one entry per cell, and the cell in row
/// `k` of column `c` stands at position `cells before c + k`, with the
/// quick-select label one more than that position: labels count the cells
/// from 1 across the whole page.
pub proof fn lemma_draw_plan_cell(
    ids: Seq<Seq<i32>>,
    n: int,
    c: int,
    k: int,
    focused_id: i32,
    mouse_focused_id: u32,
    focused_col: usize,
    quickselect_active: bool,
)
    requires
        0 <= n <= ids.len(),
        0 <= c < n,
        0 <= k < ids[c].len(),
    ensures
        spec_draw_plan(ids, n, focused_id, mouse_focused_id, focused_col, quickselect_active).len()
            == cells_before(ids, n),
        spec_draw_plan(ids, n, focused_id, mouse_focused_id, focused_col, quickselect_active)[
            cells_before(ids, c) + k] == spec_cell_draw(
            ids,
            c,
            k,
            focused_id,
            mouse_focused_id,
            focused_col,
            quickselect_active,
        ),
    decreases n,
{
    lemma_draw_plan_len(ids, n, focused_id, mouse_focused_id, focused_col, quickselect_active);
    lemma_draw_plan_len(ids, n - 1, focused_id, mouse_focused_id, focused_col, quickselect_active);
    let prev = spec_draw_plan(
        ids,
        n - 1,
        focused_id,
        mouse_focused_id,
        focused_col,
        quickselect_active,
    );
    let tail = Seq::new(
        ids[n - 1].len(),
        |kk: int|
            spec_cell_draw(
                ids,
                n - 1,
                kk,
                focused_id,
                mouse_focused_id,
                focused_col,
                quickselect_active,
            ),
    );
    assert(spec_draw_plan(ids, n, focused_id, mouse_focused_id, focused_col, quickselect_active)
        == prev + tail);
    let i = cells_before(ids, c) + k;
    lemma_cells_before_monotone(ids, 0, c);
    if c < n - 1 {
        lemma_draw_plan_cell(
            ids,
            n - 1,
            c,
            k,
            focused_id,
            mouse_focused_id,
            focused_col,
            quickselect_active,
        );
        lemma_cells_before_monotone(ids, c + 1, n - 1);
        assert(i < prev.len());
        assert((prev + tail)[i] == prev[i]);
    } else {
        assert(i == prev.len() + k);
        assert((prev + tail)[i] == tail[k]);
    }
}

proof fn lemma_draw_plan_len(
    ids: Seq<Seq<i32>>,
    n: int,
    focused_id: i32,
    mouse_focused_id: u32,
    focused_col: usize,
    quickselect_active: bool,
)
    requires
        0 <= n <= ids.len(),
    ensures
        spec_draw_plan(ids, n, focused_id, mouse_focused_id, focused_col, quickselect_active).len()
            == cells_before(ids, n),
    decreases n,
{
    if n > 0 {
        lemma_draw_plan_len(ids, n - 1, focused_id, mouse_focused_id, focused_col, quickselect_active);
    }
}

/// The cells of a page in drawing order, column by column and top to bottom,
/// each with its quick-select label and its style (see `lemma_draw_plan_cell`).
pub fn draw_plan(
    cols: &Vec<Vec<i32>>,
    focused_id: i32,
    mouse_focused_id: u32,
    focused_col: usize,
    quickselect_active: bool,
) -> (r: Vec<CellDraw>)
    requires
        cells_before(ids_view(cols@), cols@.len() as int) < usize::MAX,
    ensures
        r@ == spec_draw_plan(
            ids_view(cols@),
            cols@.len() as int,
            focused_id,
            mouse_focused_id,
            focused_col,
            quickselect_active,
        ),
{
    let ghost ids = ids_view(cols@);
    let mut out: Vec<CellDraw> = Vec::new();
    let mut label: usize = 0;
    let mut c: usize = 0;
    while c < cols.len()
        invariant
            ids == ids_view(cols@),
            ids.len() == cols@.len(),
            c <= cols@.len(),
            cells_before(ids, cols@.len() as int) < usize::MAX,
            label == cells_before(ids, c as int),
            out@ == spec_draw_plan(
                ids,
                c as int,
                focused_id,
                mouse_focused_id,
                focused_col,
                quickselect_active,
            ),
        decreases cols@.len() - c,
    {
        let col = &cols[c];
        let mut k: usize = 0;
        let ghost before = out@;
        proof {
            lemma_cells_before_monotone(ids, c + 1, cols@.len() as int);
            assert(ids[c as int] == col@);
        }
        while k < col.len()
            invariant
                ids == ids_view(cols@),
                c < cols@.len(),
                ids[c as int] == col@,
                k <= col@.len(),
                cells_before(ids, c + 1) < usize::MAX,
                cells_before(ids, c + 1) == cells_before(ids, c as int) + col@.len(),
                label == cells_before(ids, c as int) + k,
                out@ == before + Seq::new(
                    k as nat,
                    |kk: int|
                        spec_cell_draw(
                            ids,
                            c as int,
                            kk,
                            focused_id,
                            mouse_focused_id,
                            focused_col,
                            quickselect_active,
                        ),
                ),
            decreases col@.len() - k,
        {
            label = label + 1;
            let style = cell_style(
                col[k],
                focused_id,
                mouse_focused_id,
                c,
                focused_col,
                quickselect_active,
            );
            out.push(CellDraw { col: c, row: k, label, style });
            k = k + 1;
            proof {
                assert(out@ =~= before + Seq::new(
                    k as nat,
                    |kk: int|
                        spec_cell_draw(
                            ids,
                            c as int,
                            kk,
                            focused_id,
                            mouse_focused_id,
                            focused_col,
                            quickselect_active,
                        ),
                ));
            }
        }
        proof {
            assert(out@ =~= spec_draw_plan(
                ids,
                c + 1,
                focused_id,
                mouse_focused_id,
                focused_col,
                quickselect_active,
            ));
        }
        c = c + 1;
    }
    out
}

} // verus!
