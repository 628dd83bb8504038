use vstd::prelude::*;

use crate::pager::Candidate;
use crate::pager::EditState;
use crate::pager::Pager;
use crate::pager::DisplayMode;
use crate::pager::first_index_of;
use crate::pager::SHORT_COL_SIZE;

verus! {

// Flags of ITfCandidateListUIElement::GetUpdatedFlags.
pub const TF_CLUIE_DOCUMENTMGR: u32 = 0x1;
pub const TF_CLUIE_COUNT: u32 = 0x2;
pub const TF_CLUIE_SELECTION: u32 = 0x4;
pub const TF_CLUIE_STRING: u32 = 0x8;
pub const TF_CLUIE_PAGEINDEX: u32 = 0x10;
pub const TF_CLUIE_CURRENTPAGE: u32 = 0x20;

/// Whether a candidate list differs from the previous one: its length
/// changed, or some candidate of the one has a different text from some
/// candidate of the other.
pub open spec fn spec_lists_differ(prev: Seq<Candidate>, cur: Seq<Candidate>) -> bool {
    prev.len() != cur.len() || exists|i: int, j: int|
        0 <= i < prev.len() && 0 <= j < cur.len() && #[trigger] prev[i].value@ != #[trigger] cur[j].value@
}

/// The candidate lists the candidate UI has reported to the framework.
pub struct CandidateListTracker {
    pub prev_candidates: Vec<Candidate>,
    pub candidates: Vec<Candidate>,
}

impl CandidateListTracker {
    /// Whether the list changed since the last report; an unchanged list
    /// becomes the one reported.
    pub fn is_candidate_list_modified(&mut self) -> (r: bool)
        ensures
            r == spec_lists_differ(old(self).prev_candidates@, old(self).candidates@),
            final(self).candidates@ == old(self).candidates@,
            final(self).prev_candidates@ == (if r {
                old(self).prev_candidates@
            } else {
                old(self).candidates@
            }),
    {
        let n = self.prev_candidates.len();
        if n != self.candidates.len() {
            return true;
        }
        let mut i: usize = 0;
        while i < n
            invariant
                n == self.prev_candidates@.len(),
                n == self.candidates@.len(),
                i <= n,
                forall|a: int, b: int|
                    0 <= a < i && 0 <= b < n ==> #[trigger] self.prev_candidates@[a].value@
                        == #[trigger] self.candidates@[b].value@,
            decreases n - i,
        {
            let mut j: usize = 0;
            while j < n
                invariant
                    n == self.prev_candidates@.len(),
                    n == self.candidates@.len(),
                    i < n,
                    j <= n,
                    forall|a: int, b: int|
                        0 <= a < i && 0 <= b < n ==> #[trigger] self.prev_candidates@[a].value@
                            == #[trigger] self.candidates@[b].value@,
                    forall|b: int|
                        0 <= b < j ==> self.prev_candidates@[i as int].value@
                            == #[trigger] self.candidates@[b].value@,
                decreases n - j,
            {
                if self.prev_candidates[i].value != self.candidates[j].value {
                    return true;
                }
                j = j + 1;
            }
            i = i + 1;
        }
        let mut copy: Vec<Candidate> = Vec::new();
        let mut k: usize = 0;
        while k < n
            invariant
                n == self.candidates@.len(),
                k <= n,
                copy@ == self.candidates@.take(k as int),
            decreases n - k,
        {
            copy.push(self.candidates[k].clone());
            k = k + 1;
            proof {
                assert(copy@ =~= self.candidates@.take(k as int));
            }
        }
        assert(self.candidates@.take(n as int) =~= self.candidates@);
        self.prev_candidates = copy;
        false
    }
}

impl CandidateListTracker {
    /// The text of candidate `uindex` of the current list; none where the
    /// list has no such candidate.
    pub fn get_string(&self, uindex: u32) -> (r: Option<String>)
        ensures
            match r {
                Some(s) => uindex < self.candidates@.len() && s@ == self.candidates@[uindex as int].value@,
                None => uindex >= self.candidates@.len(),
            },
    {
        if (uindex as usize) < self.candidates.len() {
            Some(self.candidates[uindex as usize].value.clone())
        } else {
            None
        }
    }
}

/// The flags reporting what changed in the candidate list: the strings and
/// the count when the list changed; the page, the page index and the
/// selection always.
pub fn updated_flags(modified: bool) -> (r: u32)
    ensures
        r == (if modified {
            TF_CLUIE_STRING | TF_CLUIE_COUNT | TF_CLUIE_CURRENTPAGE | TF_CLUIE_PAGEINDEX
                | TF_CLUIE_SELECTION
        } else {
            TF_CLUIE_CURRENTPAGE | TF_CLUIE_PAGEINDEX | TF_CLUIE_SELECTION
        }),
{
    let mut flags: u32 = 0;
    if modified {
        flags = flags | TF_CLUIE_STRING | TF_CLUIE_COUNT;
    }
    flags = flags | TF_CLUIE_CURRENTPAGE | TF_CLUIE_PAGEINDEX | TF_CLUIE_SELECTION;
    assert(0u32 | TF_CLUIE_STRING | TF_CLUIE_COUNT | TF_CLUIE_CURRENTPAGE | TF_CLUIE_PAGEINDEX
        | TF_CLUIE_SELECTION == TF_CLUIE_STRING | TF_CLUIE_COUNT | TF_CLUIE_CURRENTPAGE
        | TF_CLUIE_PAGEINDEX | TF_CLUIE_SELECTION) by (bit_vector);
    assert(0u32 | TF_CLUIE_CURRENTPAGE | TF_CLUIE_PAGEINDEX | TF_CLUIE_SELECTION
        == TF_CLUIE_CURRENTPAGE | TF_CLUIE_PAGEINDEX | TF_CLUIE_SELECTION) by (bit_vector);
    flags
}

/// Whether the framework may select candidate `nindex`: only a candidate of
/// the list.
pub fn selection_in_range(nindex: u32, candidate_count: usize) -> (r: bool)
    ensures
        r == (nindex < candidate_count as u32),
{
    nindex < candidate_count as u32
}

/// The page count, and the index of the first candidate of each page when
/// the caller's buffer has room for them (none otherwise).
pub fn page_index(pager: &Pager, index_buf_size: u32) -> (r: (u32, Option<Vec<u32>>))
    requires
        pager.n() + 40 <= u32::MAX,
    ensures
        r.0 == pager.spec_page_count() as u32,
        index_buf_size < r.0 ==> r.1 is None,
        index_buf_size >= r.0 ==> (r.1 matches Some(v) && v@.len() == r.0 && forall|i: int|
            0 <= i < r.0 ==> #[trigger] v@[i] == i * pager.spec_max_page_size()),
{
    let page_count = pager.page_count() as u32;
    if index_buf_size < page_count {
        return (page_count, None);
    }
    let ps = pager.max_page_size() as u32;
    let ghost psi = pager.spec_max_page_size();
    proof {
        let n = pager.n();
        assert(5 <= psi <= 40) by {
            if pager.spec_display_mode() == crate::pager::DisplayMode::Grid {
                assert(psi == 4 * 10);
            }
        }
        assert(((n + psi - 1) / psi) * psi <= n + psi - 1) by (nonlinear_arith)
            requires
                n >= 0,
                psi > 0,
        ;
    }
    let mut index: Vec<u32> = Vec::new();
    let mut i: u32 = 0;
    while i < page_count
        invariant
            i <= page_count,
            page_count == pager.spec_page_count() as u32,
            page_count as int == pager.spec_page_count(),
            ps == psi,
            psi == pager.spec_max_page_size(),
            5 <= psi <= 40,
            page_count * psi <= pager.n() + psi - 1,
            pager.n() + 40 <= u32::MAX,
            index@.len() == i,
            forall|k: int| 0 <= k < i ==> #[trigger] index@[k] == k * psi,
        decreases page_count - i,
    {
        assert(i * psi <= page_count * psi) by (nonlinear_arith)
            requires
                i <= page_count,
                psi >= 0,
        ;
        index.push(i * ps);
        i = i + 1;
    }
    (page_count, Some(index))
}

/// What the candidate UI does with an engine reply: a new composition gets a
/// new pager over the reply's candidates; otherwise the focus follows the
/// reply's focused candidate.
pub fn on_command(
    pager: &mut Pager,
    candidates: Vec<Candidate>,
    edit_state: EditState,
    focused_id: i32,
)
    requires
        candidates@.len() <= isize::MAX,
    ensures
        edit_state == EditState::Composing ==> {
            &&& final(pager).spec_candidates() == candidates@
            &&& final(pager).spec_edit_state() == edit_state
            &&& final(pager).spec_display_mode() == DisplayMode::ShortColumn
            &&& final(pager).spec_focused_index() == 0
            &&& final(pager).spec_focused_id() == 0
        },
        edit_state != EditState::Composing ==> {
            &&& final(pager).spec_candidates() == old(pager).spec_candidates()
            &&& final(pager).spec_edit_state() == old(pager).spec_edit_state()
            &&& final(pager).spec_focused_id() == focused_id
            &&& final(pager).spec_focused_index() == (match first_index_of(
                old(pager).spec_candidates(),
                focused_id,
            ) {
                Some(i) => i,
                None => old(pager).spec_focused_index(),
            })
            &&& final(pager).spec_display_mode() == (if final(pager).spec_focused_index()
                >= SHORT_COL_SIZE {
                DisplayMode::LongColumn
            } else {
                old(pager).spec_display_mode()
            })
        },
{
    if edit_state == EditState::Composing {
        *pager = Pager::new(candidates, edit_state);
    } else {
        pager.set_focus(focused_id);
    }
}

} // verus!
