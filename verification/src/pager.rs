use vstd::prelude::*;

verus! {

pub const SHORT_COL_SIZE: usize = 5;
pub const LONG_COL_SIZE: usize = 10;
pub const NUM_GRID_COLS: usize = 4;

/// A conversion candidate offered by the engine.
#[derive(Debug)]
pub struct Candidate {
    pub id: i32,
    pub value: String,
}

impl Clone for Candidate {
    fn clone(&self) -> (r: Self)
        ensures
            r == *self,
    {
        Candidate { id: self.id, value: self.value.clone() }
    }
}

impl Candidate {
    pub fn new(id: i32, value: String) -> (r: Candidate)
        ensures
            r.id == id,
            r.value == value,
    {
        Candidate { id, value }
    }
}

/// The state of the engine's input buffer.
#[derive(PartialEq, Eq, Structural, Clone, Copy, Debug)]
pub enum EditState {
    Empty,
    Composing,
    Converted,
    Selecting,
}

/// How the candidate window lays out its candidates.
#[derive(PartialEq, Eq, Structural, Clone, Copy, Debug)]
pub enum DisplayMode {
    ShortColumn,
    LongColumn,
    Grid,
}

impl Default for DisplayMode {
    fn default() -> (r: Self)
        ensures
            r == DisplayMode::ShortColumn,
    {
        DisplayMode::ShortColumn
    }
}

/// One page of the candidate window: the candidates split into columns.
#[derive(Debug)]
pub struct CandidatePage {
    pub display_mode: DisplayMode,
    pub focused_id: i32,
    pub focused_index: usize,
    pub focused_col: usize,
    pub quickselect_active: bool,
    pub candidates: Vec<Vec<Candidate>>,
}

impl Default for CandidatePage {
    fn default() -> (r: Self)
        ensures
            r.display_mode == DisplayMode::ShortColumn,
            r.focused_id == 0,
            r.focused_index == 0,
            r.focused_col == 0,
            !r.quickselect_active,
            r.candidates@.len() == 0,
    {
        CandidatePage {
            display_mode: DisplayMode::ShortColumn,
            focused_id: 0,
            focused_index: 0,
            focused_col: 0,
            quickselect_active: false,
            candidates: Vec::new(),
        }
    }
}

/// The columns of a page as sequences.
pub open spec fn columns_view(cols: Seq<Vec<Candidate>>) -> Seq<Seq<Candidate>> {
    cols.map_values(|v: Vec<Candidate>| v@)
}

/// Splits `items` into columns: the first column holds `first` items, every
/// later one `size` items, and the last whatever is left (possibly nothing
/// when `items` is empty).
pub open spec fn split_columns(items: Seq<Candidate>, first: int, size: int) -> Seq<
    Seq<Candidate>,
>
    decreases items.len(),
{
    if items.len() <= first || first <= 0 {
        seq![items]
    } else {
        seq![items.take(first)] + split_columns(items.skip(first), size, size)
    }
}

/// The index of the first candidate with the given id.
pub open spec fn first_index_of(cands: Seq<Candidate>, id: i32) -> Option<int> {
    if exists|i: int| 0 <= i < cands.len() && cands[i].id == id {
        Some(
            choose|i: int|
                0 <= i < cands.len() && cands[i].id == id && forall|j: int|
                    0 <= j < i ==> cands[j].id != id,
        )
    } else {
        None
    }
}

/// Splits the engine's candidate list into pages and columns and tracks the
/// focused candidate.
pub struct Pager {
    candidates: Vec<Candidate>,
    edit_state: EditState,
    num_candidates: usize,
    display_mode: DisplayMode,
    focused_id: i32,
    focused_index: usize,
}

impl Pager {
    /// The candidate count matches the list, and the focus is on a candidate
    /// (or at the start).
    #[verifier::type_invariant]
    pub closed spec fn well_formed(self) -> bool {
        &&& self.num_candidates == self.candidates@.len()
        &&& self.num_candidates <= isize::MAX
        &&& (self.focused_index == 0 || self.focused_index < self.num_candidates)
    }

    pub closed spec fn spec_candidates(&self) -> Seq<Candidate> {
        self.candidates@
    }

    pub closed spec fn spec_edit_state(&self) -> EditState {
        self.edit_state
    }

    pub closed spec fn spec_display_mode(&self) -> DisplayMode {
        self.display_mode
    }

    pub closed spec fn spec_focused_id(&self) -> i32 {
        self.focused_id
    }

    pub closed spec fn spec_focused_index(&self) -> int {
        self.focused_index as int
    }

    pub open spec fn n(&self) -> int {
        self.spec_candidates().len() as int
    }

    pub open spec fn spec_max_cols_per_page(&self) -> int {
        if self.spec_display_mode() == DisplayMode::Grid {
            NUM_GRID_COLS as int
        } else {
            1
        }
    }

    pub open spec fn spec_max_col_size(&self) -> int {
        if self.spec_display_mode() == DisplayMode::ShortColumn {
            SHORT_COL_SIZE as int
        } else {
            LONG_COL_SIZE as int
        }
    }

    pub open spec fn spec_max_page_size(&self) -> int {
        self.spec_max_cols_per_page() * self.spec_max_col_size()
    }

    pub open spec fn spec_current_page(&self) -> int {
        self.spec_focused_index() / self.spec_max_page_size()
    }

    pub open spec fn spec_start_index(&self) -> int {
        self.spec_max_page_size() * self.spec_current_page()
    }

    pub open spec fn spec_end_index(&self) -> int {
        let e = self.spec_max_page_size() * (self.spec_current_page() + 1);
        if self.n() <= e {
            self.n()
        } else {
            e
        }
    }

    pub open spec fn spec_focused_col(&self) -> int {
        (self.spec_focused_index() - self.spec_start_index()) / self.spec_max_col_size()
    }

    pub open spec fn spec_page_count(&self) -> int {
        (self.n() + self.spec_max_page_size() - 1) / self.spec_max_page_size()
    }

    pub open spec fn spec_current_col(&self) -> int {
        self.spec_focused_index() / self.spec_max_col_size()
    }

    pub open spec fn spec_total_cols(&self) -> int {
        (self.n() + self.spec_max_col_size() - 1) / self.spec_max_col_size()
    }

    /// The candidates shown on the current page: from the page's start, up to
    /// one past its end (never past the list).
    pub open spec fn spec_page_items(&self) -> Seq<Candidate> {
        let start = self.spec_start_index();
        let stop = if self.n() <= self.spec_end_index() + 1 {
            self.n()
        } else {
            self.spec_end_index() + 1
        };
        self.spec_candidates().subrange(start, stop)
    }

    /// The columns of the current page.
    pub open spec fn spec_page_columns(&self) -> Seq<Seq<Candidate>> {
        split_columns(
            self.spec_page_items(),
            self.spec_start_index() + self.spec_max_col_size(),
            self.spec_max_col_size(),
        )
    }

    proof fn lemma_well_formed(&self)
        requires
            self.well_formed(),
        ensures
            self.spec_focused_index() == 0 || self.spec_focused_index() < self.n(),
            self.n() <= isize::MAX,
    {
    }

    proof fn lemma_page_size(&self)
        ensures
            1 <= self.spec_max_cols_per_page() <= 4,
            5 <= self.spec_max_col_size() <= 10,
            5 <= self.spec_max_page_size() <= 40,
    {
        if self.spec_display_mode() == DisplayMode::Grid {
            assert(self.spec_max_page_size() == 4 * 10);
        } else if self.spec_display_mode() == DisplayMode::ShortColumn {
            assert(self.spec_max_page_size() == 5);
        } else {
            assert(self.spec_max_page_size() == 10);
        }
    }

    proof fn lemma_ranges(&self)
        requires
            self.spec_focused_index() == 0 || self.spec_focused_index() < self.n(),
            self.n() <= isize::MAX,
        ensures
            0 <= self.spec_focused_index(),
            self.spec_focused_index() == 0 || self.spec_focused_index() < self.n(),
            self.n() <= isize::MAX,
            1 <= self.spec_max_cols_per_page() <= 4,
            5 <= self.spec_max_col_size() <= 10,
            5 <= self.spec_max_page_size() <= 40,
            0 <= self.spec_current_page() <= self.spec_focused_index(),
            0 <= self.spec_start_index() <= self.spec_focused_index(),
            self.spec_focused_index() < self.spec_start_index() + self.spec_max_page_size(),
            self.spec_start_index() <= self.spec_end_index(),
    {
        self.lemma_page_size();
        let ps = self.spec_max_page_size();
        let fi = self.spec_focused_index();
        let p = fi / ps;
        assert(ps * p <= fi < ps * p + ps) by (nonlinear_arith)
            requires
                ps > 0,
                fi >= 0,
                p == fi / ps,
        ;
        assert(0 <= p <= fi) by (nonlinear_arith)
            requires
                ps >= 1,
                fi >= 0,
                p == fi / ps,
        ;
        assert(ps * (p + 1) == ps * p + ps) by (nonlinear_arith);
    }

    /// A pager over the candidates of one engine reply.
    pub fn new(candidates: Vec<Candidate>, edit_state: EditState) -> (r: Self)
        requires
            candidates@.len() <= isize::MAX,
        ensures
            r.spec_candidates() == candidates@,
            r.spec_edit_state() == edit_state,
            r.spec_display_mode() == DisplayMode::ShortColumn,
            r.spec_focused_id() == 0,
            r.spec_focused_index() == 0,
    {
        let num_candidates = candidates.len();
        Pager {
            candidates,
            edit_state,
            num_candidates,
            display_mode: DisplayMode::ShortColumn,
            focused_id: 0,
            focused_index: 0,
        }
    }

    /// A pager with no candidates.
    pub fn empty() -> (r: Self)
        ensures
            r.spec_candidates().len() == 0,
            r.spec_edit_state() == EditState::Empty,
            r.spec_display_mode() == DisplayMode::ShortColumn,
            r.spec_focused_id() == 0,
            r.spec_focused_index() == 0,
    {
        Pager::new(Vec::new(), EditState::Empty)
    }

    /// The number of candidates.
    pub fn candidate_count(&self) -> (r: usize)
        ensures
            r == self.n(),
    {
        proof {
            use_type_invariant(self);
        }
        self.num_candidates
    }

    /// The candidate list.
    pub fn candidates(&self) -> (r: &Vec<Candidate>)
        ensures
            r@ == self.spec_candidates(),
    {
        &self.candidates
    }

    /// The index of the focused candidate.
    pub fn focused_index(&self) -> (r: usize)
        ensures
            r == self.spec_focused_index(),
    {
        self.focused_index
    }

    /// The id of the candidate at `idx`, if there is one.
    pub fn candidate_id_at_index(&self, idx: usize) -> (r: Option<i32>)
        ensures
            r == (if idx < self.n() {
                Some(self.spec_candidates()[idx as int].id)
            } else {
                None::<i32>
            }),
    {
        proof {
            use_type_invariant(self);
        }
        if idx < self.num_candidates {
            Some(self.candidates[idx].id)
        } else {
            None
        }
    }

    /// The number of columns on a page.
    pub fn max_cols_per_page(&self) -> (r: usize)
        ensures
            r == self.spec_max_cols_per_page(),
    {
        match self.display_mode {
            DisplayMode::Grid => NUM_GRID_COLS,
            _ => 1,
        }
    }

    /// The number of candidates in a column.
    pub fn max_col_size(&self) -> (r: usize)
        ensures
            r == self.spec_max_col_size(),
    {
        match self.display_mode {
            DisplayMode::ShortColumn => SHORT_COL_SIZE,
            _ => LONG_COL_SIZE,
        }
    }

    /// The number of candidates on a full page.
    pub fn max_page_size(&self) -> (r: usize)
        ensures
            r == self.spec_max_page_size(),
    {
        proof {
            self.lemma_page_size();
        }
        self.max_cols_per_page() * self.max_col_size()
    }

    /// The number of pages.
    pub fn page_count(&self) -> (r: usize)
        ensures
            r == self.spec_page_count(),
    {
        proof {
            use_type_invariant(self);
            self.lemma_ranges();
        }
        let n = self.candidate_count();
        let p = self.max_page_size();
        (n + p - 1) / p
    }

    /// The page of the focused candidate.
    pub fn current_page(&self) -> (r: usize)
        ensures
            r == self.spec_current_page(),
    {
        proof {
            self.lemma_page_size();
        }
        self.focused_index / self.max_page_size()
    }

    /// The index of the first candidate of the current page.
    pub fn start_index(&self) -> (r: usize)
        ensures
            r == self.spec_start_index(),
    {
        proof {
            use_type_invariant(self);
            self.lemma_ranges();
        }
        self.max_page_size() * self.current_page()
    }

    /// The index just past the current page.
    pub fn end_index(&self) -> (r: usize)
        ensures
            r == self.spec_end_index(),
    {
        proof {
            use_type_invariant(self);
            self.lemma_ranges();
            let ps = self.spec_max_page_size();
            let p = self.spec_current_page();
            assert(ps * (p + 1) == ps * p + ps) by (nonlinear_arith);
        }
        let e = self.max_page_size() * (self.current_page() + 1);
        let n = self.candidate_count();
        if n <= e {
            n
        } else {
            e
        }
    }

    /// The column of the focused candidate within its page.
    pub fn focused_col(&self) -> (r: usize)
        ensures
            r == self.spec_focused_col(),
    {
        proof {
            use_type_invariant(self);
            self.lemma_ranges();
        }
        (self.focused_index - self.start_index()) / self.max_col_size()
    }

    /// The column of the focused candidate counting from the first page.
    pub fn current_col(&self) -> (r: usize)
        ensures
            r == self.spec_current_col(),
    {
        proof {
            self.lemma_page_size();
        }
        self.focused_index / self.max_col_size()
    }

    /// The number of columns the candidates fill.
    pub fn total_cols(&self) -> (r: usize)
        ensures
            r == self.spec_total_cols(),
    {
        proof {
            use_type_invariant(self);
            self.lemma_ranges();
        }
        let n = self.candidate_count();
        let d = self.max_col_size();
        (n + d - 1) / d
    }

    /// Focuses the candidate with id `focused_id`: the focus moves to the
    /// first candidate with that id (and stays where it was if there is none);
    /// a focus past the first short column switches to long columns.
    pub fn set_focus(&mut self, focused_id: i32)
        ensures
            final(self).spec_candidates() == old(self).spec_candidates(),
            final(self).spec_edit_state() == old(self).spec_edit_state(),
            final(self).spec_focused_id() == focused_id,
            final(self).spec_focused_index() == (match first_index_of(
                old(self).spec_candidates(),
                focused_id,
            ) {
                Some(i) => i,
                None => old(self).spec_focused_index(),
            }),
            final(self).spec_display_mode() == (if final(self).spec_focused_index()
                >= SHORT_COL_SIZE {
                DisplayMode::LongColumn
            } else {
                old(self).spec_display_mode()
            }),
    {
        proof {
            use_type_invariant(&*self);
        }
        let ghost cands = self.candidates@;
        let n = self.candidates.len();
        let mut found: Option<usize> = None;
        let mut i: usize = 0;
        while i < n && found.is_none()
            invariant
                n == cands.len(),
                self.candidates@ == cands,
                i <= n,
                found is None ==> forall|j: int| 0 <= j < i ==> cands[j].id != focused_id,
                found is Some ==> i < n,
                found matches Some(k) ==> k < n && cands[k as int].id == focused_id && forall|
                    j: int,
                | 0 <= j < k ==> cands[j].id != focused_id,
            decreases n - i + (if found is None { 1int } else { 0int }),
        {
            if self.candidates[i].id == focused_id {
                found = Some(i);
            } else {
                i = i + 1;
            }
        }
        proof {
            match found {
                Some(k) => {
                    assert(exists|i: int| 0 <= i < cands.len() && cands[i].id == focused_id);
                    let c = choose|i: int|
                        0 <= i < cands.len() && cands[i].id == focused_id && forall|j: int|
                            0 <= j < i ==> cands[j].id != focused_id;
                    assert(c == k as int) by {
                        if c < k {
                        } else if c > k {
                        }
                    }
                },
                None => {},
            }
        }
        let new_index = match found {
            Some(k) => k,
            None => self.focused_index,
        };
        let new_mode = if new_index >= SHORT_COL_SIZE {
            DisplayMode::LongColumn
        } else {
            self.display_mode
        };
        self.focused_id = focused_id;
        self.focused_index = new_index;
        self.display_mode = new_mode;
    }

    /// The current page: its candidates split into columns, with the focus
    /// and quick-select state. Empty when there are no candidates.
    pub fn get_page(&self) -> (r: CandidatePage)
        ensures
            self.n() == 0 ==> r.display_mode == DisplayMode::ShortColumn && r.focused_id == 0
                && r.focused_index == 0 && r.focused_col == 0 && !r.quickselect_active
                && r.candidates@.len() == 0,
            self.n() > 0 ==> r.display_mode == self.spec_display_mode() && r.focused_id
                == self.spec_focused_id() && r.focused_index == self.spec_focused_index()
                && r.focused_col == self.spec_focused_col() && r.quickselect_active == (
            self.spec_edit_state() == EditState::Selecting) && columns_view(r.candidates@)
                == self.spec_page_columns(),
    {
        proof {
            use_type_invariant(self);
            self.lemma_ranges();
        }
        if self.num_candidates == 0 {
            return CandidatePage::default();
        }
        let start = self.start_index();
        let end = self.end_index();
        let col_size = self.max_col_size();
        let n = self.num_candidates;
        let stop = if n <= end + 1 {
            n
        } else {
            end + 1
        };
        let ghost items = self.candidates@.subrange(start as int, stop as int);
        let ghost first = start + col_size;
        assert(items == self.spec_page_items());

        let mut grid: Vec<Vec<Candidate>> = Vec::new();
        let mut col: Vec<Candidate> = Vec::new();
        let mut next_split: usize = start + col_size;
        let count = stop - start;
        let mut i: usize = 0;
        proof {
            assert(items.skip(0) =~= items);
        }
        while i < count
            invariant
                n <= isize::MAX,
                count == items.len(),
                start + count <= n,
                n == self.candidates@.len(),
                items == self.candidates@.subrange(start as int, stop as int),
                stop == start + count,
                col_size == self.spec_max_col_size(),
                5 <= col_size <= 10,
                first == start + col_size,
                i <= count,
                col@.len() <= i,
                i <= next_split,
                next_split <= i + col_size + start,
                next_split - (i - col@.len()) == (if grid@.len() == 0 {
                    first
                } else {
                    col_size as int
                }),
                col@ == items.subrange(i - col@.len(), i as int),
                split_columns(items, first, col_size as int) == columns_view(grid@)
                    + split_columns(
                    items.skip(i - col@.len()),
                    next_split - (i - col@.len()),
                    col_size as int,
                ),
            decreases count - i,
        {
            let ghost cs = i - col@.len();
            if i == next_split {
                proof {
                    let rest = items.skip(cs);
                    let k = next_split - cs;
                    assert(rest.len() > k);
                    assert(k > 0);
                    assert(rest.take(k) =~= col@);
                    assert(rest.skip(k) =~= items.skip(i as int));
                    assert(columns_view(grid@.push(col)) =~= columns_view(grid@) + seq![col@]);
                }
                grid.push(col);
                col = Vec::new();
                next_split = i + col_size;
                proof {
                    assert(col@ =~= items.subrange(i as int, i as int));
                }
            }
            let c = self.candidates[start + i].clone();
            col.push(c);
            proof {
                assert(col@ =~= items.subrange(i + 1 - col@.len(), i + 1));
            }
            i = i + 1;
        }
        proof {
            let cs = i - col@.len();
            let rest = items.skip(cs);
            assert(rest =~= col@);
            assert(columns_view(grid@.push(col)) =~= columns_view(grid@) + seq![col@]);
        }
        grid.push(col);

        CandidatePage {
            display_mode: self.display_mode,
            focused_id: self.focused_id,
            focused_index: self.focused_index,
            focused_col: self.focused_col(),
            quickselect_active: self.edit_state == EditState::Selecting,
            candidates: grid,
        }
    }
}

// ---------------------------------------------------------------------------
// Laws
// ---------------------------------------------------------------------------

/// The candidates of a list of columns, column after column.
pub open spec fn flatten(cols: Seq<Seq<Candidate>>) -> Seq<Candidate>
    decreases cols.len(),
{
    if cols.len() == 0 {
        seq![]
    } else {
        cols[0] + flatten(cols.drop_first())
    }
}

/// Splitting into columns loses and reorders nothing: the columns, read one
/// after the other, are the items.
pub proof fn lemma_split_columns_flatten(items: Seq<Candidate>, first: int, size: int)
    requires
        size > 0,
    ensures
        flatten(split_columns(items, first, size)) == items,
    decreases items.len(),
{
    if items.len() <= first || first <= 0 {
        assert(seq![items].drop_first() =~= Seq::<Seq<Candidate>>::empty());
        assert(flatten(Seq::<Seq<Candidate>>::empty()) =~= Seq::<Candidate>::empty());
        assert(items + Seq::<Candidate>::empty() =~= items);
    } else {
        lemma_split_columns_flatten(items.skip(first), size, size);
        let cols = split_columns(items, first, size);
        assert(cols.drop_first() =~= split_columns(items.skip(first), size, size));
        assert(items.take(first) + items.skip(first) =~= items);
    }
}

/// Every column but the last is full: the first holds `first` items, the
/// others `size`.
pub proof fn lemma_split_columns_sizes(items: Seq<Candidate>, first: int, size: int)
    requires
        size > 0,
        first > 0,
    ensures
        split_columns(items, first, size).len() >= 1,
        split_columns(items, first, size).len() > 1 ==> split_columns(items, first, size)[0].len()
            == first,
        forall|k: int|
            1 <= k < split_columns(items, first, size).len() - 1 ==> #[trigger] split_columns(
                items,
                first,
                size,
            )[k].len() == size,
    decreases items.len(),
{
    if items.len() > first {
        lemma_split_columns_sizes(items.skip(first), size, size);
        let cols = split_columns(items, first, size);
        let rest = split_columns(items.skip(first), size, size);
        assert forall|k: int| 1 <= k < cols.len() - 1 implies #[trigger] cols[k].len() == size by {
            assert(cols[k] == rest[k - 1]);
        }
    }
}

/// The pages cover the list: `page_count` full pages hold every candidate,
/// and one page fewer would not.
pub proof fn lemma_pages_cover_candidates(p: Pager)
    requires
        p.well_formed(),
    ensures
        p.spec_page_count() * p.spec_max_page_size() >= p.n(),
        p.n() > 0 ==> (p.spec_page_count() - 1) * p.spec_max_page_size() < p.n(),
{
    p.lemma_well_formed();
    p.lemma_page_size();
    let n = p.n();
    let ps = p.spec_max_page_size();
    let c = p.spec_page_count();
    assert(c * ps >= n && (n > 0 ==> (c - 1) * ps < n)) by (nonlinear_arith)
        requires
            n >= 0,
            ps > 0,
            c == (n + ps - 1) / ps,
    ;
}

/// The focused candidate is on the current page, in one of its columns.
pub proof fn lemma_focus_on_current_page(p: Pager)
    requires
        p.well_formed(),
    ensures
        p.spec_start_index() <= p.spec_focused_index() < p.spec_start_index()
            + p.spec_max_page_size(),
        p.spec_focused_index() < p.n() ==> p.spec_focused_index() < p.spec_end_index(),
        0 <= p.spec_focused_col() < p.spec_max_cols_per_page(),
        p.n() > 0 ==> p.spec_current_page() < p.spec_page_count(),
{
    p.lemma_well_formed();
    p.lemma_ranges();
    let ps = p.spec_max_page_size();
    let cols = p.spec_max_cols_per_page();
    let cs = p.spec_max_col_size();
    let d = p.spec_focused_index() - p.spec_start_index();
    assert(0 <= d / cs < cols) by (nonlinear_arith)
        requires
            0 <= d < ps,
            ps == cols * cs,
            cs > 0,
    ;
    let n = p.n();
    let fi = p.spec_focused_index();
    let pg = p.spec_current_page();
    assert(ps * (pg + 1) == ps * pg + ps) by (nonlinear_arith);
    if n > 0 {
        assert(fi / ps < (n + ps - 1) / ps) by (nonlinear_arith)
            requires
                0 <= fi < n,
                ps > 0,
        ;
    }
}

/// After focusing an id that is in the list, the focused candidate has that
/// id and no earlier candidate has it.
pub proof fn lemma_set_focus_finds_id(before: Pager, after: Pager, id: i32, i: int)
    requires
        0 <= i < before.n(),
        before.spec_candidates()[i].id == id,
        after.spec_candidates() == before.spec_candidates(),
        after.spec_focused_index() == (match first_index_of(before.spec_candidates(), id) {
            Some(k) => k,
            None => before.spec_focused_index(),
        }),
    ensures
        after.spec_focused_index() <= i,
        after.spec_candidates()[after.spec_focused_index()].id == id,
        forall|j: int| 0 <= j < after.spec_focused_index() ==> after.spec_candidates()[j].id != id,
{
    let cands = before.spec_candidates();
    assert(exists|k: int| 0 <= k < cands.len() && cands[k].id == id);
    let m = choose|k: int| 0 <= k < cands.len() && cands[k].id == id;
    // the least index with this id exists
    let least = lemma_least_index(cands, id, m);
    let c = choose|k: int|
        0 <= k < cands.len() && cands[k].id == id && forall|j: int| 0 <= j < k ==> cands[j].id != id;
    assert(c <= i) by {
        if c > i {
            assert(cands[i].id != id);
        }
    }
}

proof fn lemma_least_index(cands: Seq<Candidate>, id: i32, m: int) -> (k: int)
    requires
        0 <= m < cands.len(),
        cands[m].id == id,
    ensures
        0 <= k <= m,
        cands[k].id == id,
        forall|j: int| 0 <= j < k ==> cands[j].id != id,
    decreases m,
{
    if exists|j: int| 0 <= j < m && cands[j].id == id {
        let j = choose|j: int| 0 <= j < m && cands[j].id == id;
        lemma_least_index(cands, id, j)
    } else {
        m
    }
}

/// Splitting a non-empty list leaves no column empty: a new column is begun
/// only for a candidate that does not fit in the one before, so the columns
/// are as few as the candidates need.
pub proof fn lemma_split_columns_nonempty(items: Seq<Candidate>, first: int, size: int)
    requires
        items.len() > 0,
        first > 0,
        size > 0,
    ensures
        forall|k: int|
            0 <= k < split_columns(items, first, size).len() ==> #[trigger] split_columns(
                items,
                first,
                size,
            )[k].len() > 0,
    decreases items.len(),
{
    if items.len() > first {
        lemma_split_columns_nonempty(items.skip(first), size, size);
        let cols = split_columns(items, first, size);
        let rest = split_columns(items.skip(first), size, size);
        assert forall|k: int| 0 <= k < cols.len() implies #[trigger] cols[k].len() > 0 by {
            if k > 0 {
                assert(cols[k] == rest[k - 1]);
            }
        }
    }
}

/// Every column of the page that `get_page` shows holds at least one
/// candidate, whenever there are candidates.
pub proof fn lemma_page_columns_nonempty(p: Pager)
    requires
        p.well_formed(),
        p.n() > 0,
    ensures
        forall|k: int|
            0 <= k < p.spec_page_columns().len() ==> #[trigger] p.spec_page_columns()[k].len() > 0,
{
    p.lemma_well_formed();
    p.lemma_ranges();
    lemma_split_columns_nonempty(
        p.spec_page_items(),
        p.spec_start_index() + p.spec_max_col_size(),
        p.spec_max_col_size(),
    );
}

} // verus!
