use vstd::prelude::*;

use crate::layout::fits_i32;
use crate::win::encode_utf16;
use crate::win::lemma_utf16_concat;
use crate::win::utf16_encode;

verus! {

/// How a segment of the composition is shown.
#[derive(PartialEq, Eq, Structural, Clone, Copy, Debug, Hash)]
pub enum SegmentStatus {
    Unmarked,
    Composing,
    Converted,
    Focused,
}

/// A segment of the engine's composition.
#[derive(Debug)]
pub struct Segment {
    pub value: String,
    pub status: SegmentStatus,
}

/// The composition the engine reports: its segments and caret positions.
#[derive(Debug)]
pub struct Preedit {
    pub segments: Vec<Segment>,
    pub caret: i32,
    pub focused_caret: i32,
}

/// Where a segment lies in the wide display text.
#[derive(PartialEq, Eq, Structural, Clone, Copy, Debug)]
pub struct SegmentData {
    pub start: i32,
    pub stop: i32,
    pub status: SegmentStatus,
}

/// The composition in UTF-16, as the text services framework takes it.
#[derive(Debug)]
pub struct WPreedit {
    pub caret: i32,
    pub display: Vec<u16>,
    pub segments: Vec<SegmentData>,
}

/// The UTF-16 display of the segments, one after the other.
pub open spec fn display_of(segs: Seq<Segment>) -> Seq<u16>
    decreases segs.len(),
{
    if segs.len() == 0 {
        seq![]
    } else {
        display_of(segs.drop_last()) + utf16_encode(segs.last().value@)
    }
}

/// The text of the segments, one after the other.
pub open spec fn text_of(segs: Seq<Segment>) -> Seq<char>
    decreases segs.len(),
{
    if segs.len() == 0 {
        seq![]
    } else {
        text_of(segs.drop_last()) + segs.last().value@
    }
}

/// The number of UTF-16 units of segment `i`.
pub open spec fn wide_len(segs: Seq<Segment>, i: int) -> int {
    utf16_encode(segs[i].value@).len() as int
}

/// The data recorded for segment `i`: it starts at its index and stops that
/// index plus its UTF-16 length further.
pub open spec fn segment_data_of(segs: Seq<Segment>, i: int) -> SegmentData {
    SegmentData {
        start: i as i32,
        stop: ((i as i32) + (wide_len(segs, i) as i32)) as i32,
        status: segs[i].status,
    }
}

/// The segment data can be computed without overflow.
pub open spec fn segments_fit(segs: Seq<Segment>) -> bool {
    forall|i: int| 0 <= i < segs.len() ==> #[trigger] fits_i32((i as i32) + (wide_len(segs, i) as i32))
}

impl WPreedit {
    /// The wide form of a preedit.
    pub fn new(preedit: &Preedit) -> (r: Self)
        requires
            segments_fit(preedit.segments@),
        ensures
            r.caret == preedit.caret,
            r.display@ == display_of(preedit.segments@),
            r.segments@.len() == preedit.segments@.len(),
            forall|i: int|
                0 <= i < r.segments@.len() ==> #[trigger] r.segments@[i] == segment_data_of(
                    preedit.segments@,
                    i,
                ),
    {
        let segs = &preedit.segments;
        let n = segs.len();
        let mut display: Vec<u16> = Vec::new();
        let mut segments: Vec<SegmentData> = Vec::new();
        let mut i: usize = 0;
        while i < n
            invariant
                n == segs@.len(),
                i <= n,
                segments_fit(segs@),
                display@ == display_of(segs@.take(i as int)),
                segments@.len() == i,
                forall|j: int|
                    0 <= j < i ==> #[trigger] segments@[j] == segment_data_of(segs@, j),
            decreases n - i,
        {
            let s = &segs[i];
            let wstring = encode_utf16(s.value.as_str());
            let size = wstring.len() as i32;
            assert(fits_i32((i as i32) + (wide_len(segs@, i as int) as i32)));
            let seg_data = SegmentData { start: i as i32, stop: i as i32 + size, status: s.status };
            segments.push(seg_data);
            let mut k: usize = 0;
            let ghost before = display@;
            while k < wstring.len()
                invariant
                    k <= wstring@.len(),
                    display@ == before + wstring@.take(k as int),
                decreases wstring@.len() - k,
            {
                display.push(wstring[k]);
                k = k + 1;
                proof {
                    assert(display@ =~= before + wstring@.take(k as int));
                }
            }
            proof {
                assert(wstring@.take(k as int) =~= wstring@);
                assert(segs@.take(i + 1).drop_last() =~= segs@.take(i as int));
                assert(segs@.take(i + 1).last() == segs@[i as int]);
            }
            i = i + 1;
        }
        assert(segs@.take(n as int) =~= segs@);
        WPreedit { caret: preedit.caret, display, segments }
    }
}

impl Preedit {
    /// The wide form of this preedit, as `WPreedit::new` builds it.
    pub fn widen(&self) -> (r: WPreedit)
        requires
            segments_fit(self.segments@),
        ensures
            r.caret == self.caret,
            r.display@ == display_of(self.segments@),
            r.segments@.len() == self.segments@.len(),
            forall|i: int|
                0 <= i < r.segments@.len() ==> #[trigger] r.segments@[i] == segment_data_of(
                    self.segments@,
                    i,
                ),
    {
        WPreedit::new(self)
    }
}

/// The segments' text, one after the other.
pub fn preedit_text(preedit: &Preedit) -> (r: String)
    ensures
        r@ == text_of(preedit.segments@),
{
    let segs = &preedit.segments;
    let n = segs.len();
    let mut out = String::new();
    let mut i: usize = 0;
    while i < n
        invariant
            n == segs@.len(),
            i <= n,
            out@ == text_of(segs@.take(i as int)),
        decreases n - i,
    {
        out.append(segs[i].value.as_str());
        proof {
            assert(segs@.take(i + 1).drop_last() =~= segs@.take(i as int));
        }
        i = i + 1;
    }
    assert(segs@.take(n as int) =~= segs@);
    out
}

/// The wide display of a preedit is the UTF-16 encoding of its text.
pub proof fn lemma_display_is_encoded_text(segs: Seq<Segment>)
    ensures
        display_of(segs) == utf16_encode(text_of(segs)),
    decreases segs.len(),
{
    if segs.len() > 0 {
        lemma_display_is_encoded_text(segs.drop_last());
        lemma_utf16_concat(text_of(segs.drop_last()), segs.last().value@);
    }
}

} // verus!
