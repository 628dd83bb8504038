use vstd::prelude::*;
use vstd::utf8::encode_utf8;
use vstd::string::StringSliceAdditionalSpecFns;

use crate::win::encode_utf16;
use crate::win::utf16_encode;
use crate::wpreedit::display_of;
use crate::wpreedit::preedit_text;
use crate::wpreedit::segment_data_of;
use crate::wpreedit::segments_fit;
use crate::wpreedit::text_of;
use crate::wpreedit::Preedit;
use crate::wpreedit::SegmentStatus;
use crate::wpreedit::WPreedit;

verus! {

/// The display-attribute atom that marks "no attribute".
pub const TF_INVALID_GUIDATOM: u32 = 0;

/// The display-attribute atoms registered for each segment status.
#[derive(PartialEq, Eq, Structural, Clone, Copy, Debug)]
pub struct AttrAtoms {
    pub composing: Option<u32>,
    pub converted: Option<u32>,
    pub focused: Option<u32>,
    pub unmarked: Option<u32>,
}

impl AttrAtoms {
    pub open spec fn spec_atom_for(self, status: SegmentStatus) -> u32 {
        let a = match status {
            SegmentStatus::Composing => self.composing,
            SegmentStatus::Converted => self.converted,
            SegmentStatus::Focused => self.focused,
            SegmentStatus::Unmarked => self.unmarked,
        };
        match a {
            Some(v) => v,
            None => TF_INVALID_GUIDATOM,
        }
    }

    /// No atoms registered.
    pub fn empty() -> (r: Self)
        ensures
            r.composing is None && r.converted is None && r.focused is None && r.unmarked is None,
    {
        AttrAtoms { composing: None, converted: None, focused: None, unmarked: None }
    }

    /// The atoms after registering the input, converted and focused display
    /// attributes; unmarked text gets no attribute.
    pub fn registered(input_attr: u32, converted_attr: u32, focused_attr: u32) -> (r: Self)
        ensures
            r.composing == Some(input_attr),
            r.converted == Some(converted_attr),
            r.focused == Some(focused_attr),
            r.unmarked == Some(TF_INVALID_GUIDATOM),
    {
        AttrAtoms {
            composing: Some(input_attr),
            converted: Some(converted_attr),
            focused: Some(focused_attr),
            unmarked: Some(TF_INVALID_GUIDATOM),
        }
    }

    /// The atom of a segment status, or no attribute if none is registered.
    pub fn atom_for(&self, status: SegmentStatus) -> (r: u32)
        ensures
            r == self.spec_atom_for(status),
    {
        let a = match status {
            SegmentStatus::Composing => self.composing,
            SegmentStatus::Converted => self.converted,
            SegmentStatus::Focused => self.focused,
            SegmentStatus::Unmarked => self.unmarked,
        };
        match a {
            Some(v) => v,
            None => TF_INVALID_GUIDATOM,
        }
    }
}

/// What to do with the composition when the engine replies.
#[derive(PartialEq, Eq, Structural, Clone, Copy, Debug)]
pub struct CompositionSteps {
    /// Commit the committed text first.
    pub commit: bool,
    /// Then show the preedit.
    pub compose: bool,
}

/// The steps for a reply: a commit command only commits; a reply that
/// committed text commits it and then shows what is left of the preedit (if
/// the caret is past its start); any other reply shows the preedit.
pub fn composition_steps(is_commit_command: bool, committed: bool, caret: i32) -> (r:
    CompositionSteps)
    ensures
        r == (if is_commit_command {
            CompositionSteps { commit: true, compose: false }
        } else if committed {
            CompositionSteps { commit: true, compose: caret > 0 }
        } else {
            CompositionSteps { commit: false, compose: true }
        }),
{
    if is_commit_command {
        CompositionSteps { commit: true, compose: false }
    } else if committed {
        CompositionSteps { commit: true, compose: caret > 0 }
    } else {
        CompositionSteps { commit: false, compose: true }
    }
}

/// How to commit a composition.
#[derive(Debug)]
pub struct CommitPlan {
    /// Replace the composition's text with these units first.
    pub replace_text: Option<Vec<u16>>,
    /// How far to move the start of the composition (and the caret).
    pub shift: i32,
    /// End the composition afterwards.
    pub end_composition: bool,
}

/// How to commit: in manual mode the shown preedit is kept as it is and the
/// composition ends after it; otherwise the committed text replaces the
/// composition, the start moves by the committed text's length in bytes, and
/// the composition ends only if no preedit is left.
pub fn commit_plan(manual_mode: bool, preedit: &Preedit, committed_text: &str) -> (r: CommitPlan)
    requires
        segments_fit(preedit.segments@),
    ensures
        manual_mode ==> r.replace_text is None && r.shift == (display_of(
            preedit.segments@,
        ).len() as i32) && r.end_composition,
        !manual_mode ==> (r.replace_text matches Some(t) && t@ == utf16_encode(committed_text@)
            && r.shift == ((committed_text.spec_bytes().len() as usize) as i32) && r.end_composition == (
        display_of(preedit.segments@).len() == 0)),
{
    let wide = WPreedit::new(preedit);
    if manual_mode {
        CommitPlan { replace_text: None, shift: wide.display.len() as i32, end_composition: true }
    } else {
        let units = encode_utf16(committed_text);
        let len = committed_text.len();
        CommitPlan {
            replace_text: Some(units),
            shift: len as i32,
            end_composition: wide.display.len() == 0,
        }
    }
}

/// How to commit the whole composition: its shown text is the committed
/// text (the UTF-16 display decodes back to the segments' text).
pub fn commit_all_plan(manual_mode: bool, preedit: &Preedit) -> (r: CommitPlan)
    requires
        segments_fit(preedit.segments@),
    ensures
        manual_mode ==> r.replace_text is None && r.shift == (display_of(
            preedit.segments@,
        ).len() as i32) && r.end_composition,
        !manual_mode ==> (r.replace_text matches Some(t) && t@ == utf16_encode(
            text_of(preedit.segments@),
        ) && r.shift == ((encode_utf8(text_of(preedit.segments@)).len() as usize) as i32)
            && r.end_composition == (display_of(preedit.segments@).len() == 0)),
{
    let text = preedit_text(preedit);
    commit_plan(manual_mode, preedit, text.as_str())
}

/// How to commit text directly: it replaces the composition, the start
/// moves by its length in bytes, and the composition ends.
pub fn commit_text_plan(committed_text: &str) -> (r: CommitPlan)
    ensures
        r.replace_text matches Some(t) && t@ == utf16_encode(committed_text@),
        r.shift == ((committed_text.spec_bytes().len() as usize) as i32),
        r.end_composition,
{
    let units = encode_utf16(committed_text);
    let len = committed_text.len();
    CommitPlan { replace_text: Some(units), shift: len as i32, end_composition: true }
}

/// A range of the composition and the display attribute to give it.
#[derive(PartialEq, Eq, Structural, Clone, Copy, Debug)]
pub struct AttrRange {
    pub start: i32,
    pub stop: i32,
    pub atom: u32,
}

/// How to show a preedit: the text, the attribute of each segment's range,
/// and the caret at the end of the text.
#[derive(Debug)]
pub struct CompositionLayout {
    pub display: Vec<u16>,
    pub ranges: Vec<AttrRange>,
    pub caret: i32,
}

/// The layout of a preedit in the composition.
pub fn composition_layout(preedit: &Preedit, atoms: &AttrAtoms) -> (r: CompositionLayout)
    requires
        segments_fit(preedit.segments@),
    ensures
        r.display@ == display_of(preedit.segments@),
        r.caret == (display_of(preedit.segments@).len() as i32),
        r.ranges@.len() == preedit.segments@.len(),
        forall|i: int|
            0 <= i < r.ranges@.len() ==> #[trigger] r.ranges@[i] == (AttrRange {
                start: segment_data_of(preedit.segments@, i).start,
                stop: segment_data_of(preedit.segments@, i).stop,
                atom: atoms.spec_atom_for(preedit.segments@[i].status),
            }),
{
    let wide = WPreedit::new(preedit);
    let caret = wide.display.len() as i32;
    let mut ranges: Vec<AttrRange> = Vec::new();
    let n = wide.segments.len();
    let mut i: usize = 0;
    while i < n
        invariant
            n == wide.segments@.len(),
            n == preedit.segments@.len(),
            i <= n,
            forall|j: int|
                0 <= j < n ==> #[trigger] wide.segments@[j] == segment_data_of(preedit.segments@, j),
            ranges@.len() == i,
            forall|j: int|
                0 <= j < i ==> #[trigger] ranges@[j] == (AttrRange {
                    start: segment_data_of(preedit.segments@, j).start,
                    stop: segment_data_of(preedit.segments@, j).stop,
                    atom: atoms.spec_atom_for(preedit.segments@[j].status),
                }),
        decreases n - i,
    {
        let seg = wide.segments[i];
        ranges.push(AttrRange { start: seg.start, stop: seg.stop, atom: atoms.atom_for(seg.status) });
        i = i + 1;
    }
    CompositionLayout { display: wide.display, ranges, caret }
}

} // verus!
