use khiin_windows::composition::commit_all_plan;
use khiin_windows::composition::commit_plan;
use khiin_windows::composition::composition_layout;
use khiin_windows::composition::composition_steps;
use khiin_windows::composition::AttrAtoms;
use khiin_windows::composition::AttrRange;
use khiin_windows::composition::CompositionSteps;
use khiin_windows::composition::TF_INVALID_GUIDATOM;
use khiin_windows::wpreedit::preedit_text;
use khiin_windows::wpreedit::Preedit;
use khiin_windows::wpreedit::Segment;
use khiin_windows::wpreedit::SegmentData;
use khiin_windows::wpreedit::SegmentStatus;
use khiin_windows::wpreedit::WPreedit;

fn preedit(parts: &[(&str, SegmentStatus)], caret: i32) -> Preedit {
    Preedit {
        segments: parts.iter().map(|(v, s)| Segment { value: v.to_string(), status: *s }).collect(),
        caret,
        focused_caret: 0,
    }
}

#[test]
fn widen_preedit() {
    let p = preedit(&[("tai", SegmentStatus::Composing), ("語😀", SegmentStatus::Focused)], 4);
    let w = WPreedit::new(&p);
    assert_eq!(w.caret, 4);
    let expected: Vec<u16> = "tai語😀".encode_utf16().collect();
    assert_eq!(w.display, expected);
    assert_eq!(
        w.segments,
        vec![
            SegmentData { start: 0, stop: 3, status: SegmentStatus::Composing },
            SegmentData { start: 1, stop: 4, status: SegmentStatus::Focused },
        ]
    );
    assert_eq!(preedit_text(&p), "tai語😀");
}

#[test]
fn empty_preedit() {
    let p = preedit(&[], 0);
    let w = WPreedit::new(&p);
    assert!(w.display.is_empty());
    assert!(w.segments.is_empty());
}

#[test]
fn steps_for_replies() {
    assert_eq!(composition_steps(true, true, 3), CompositionSteps { commit: true, compose: false });
    assert_eq!(composition_steps(false, true, 3), CompositionSteps { commit: true, compose: true });
    assert_eq!(composition_steps(false, true, 0), CompositionSteps { commit: true, compose: false });
    assert_eq!(composition_steps(false, false, 0), CompositionSteps { commit: false, compose: true });
}

#[test]
fn commit_plans() {
    let p = preedit(&[("ka", SegmentStatus::Converted)], 2);
    let manual = commit_plan(true, &p, "ignored");
    assert!(manual.replace_text.is_none());
    assert_eq!(manual.shift, 2);
    assert!(manual.end_composition);

    let auto = commit_plan(false, &p, "台");
    assert_eq!(auto.replace_text, Some(vec![0x53F0]));
    assert_eq!(auto.shift, 3);
    assert!(!auto.end_composition);

    let done = commit_plan(false, &preedit(&[], 0), "ok");
    assert_eq!(done.shift, 2);
    assert!(done.end_composition);

    let all = commit_all_plan(false, &preedit(&[("a", SegmentStatus::Composing), ("b", SegmentStatus::Focused)], 2));
    assert_eq!(all.replace_text, Some(vec![0x61, 0x62]));
    assert_eq!(all.shift, 2);
}

#[test]
fn atoms_and_layout() {
    let atoms = AttrAtoms::registered(11, 22, 33);
    assert_eq!(atoms.atom_for(SegmentStatus::Composing), 11);
    assert_eq!(atoms.atom_for(SegmentStatus::Converted), 22);
    assert_eq!(atoms.atom_for(SegmentStatus::Focused), 33);
    assert_eq!(atoms.atom_for(SegmentStatus::Unmarked), TF_INVALID_GUIDATOM);
    assert_eq!(AttrAtoms::empty().atom_for(SegmentStatus::Focused), TF_INVALID_GUIDATOM);

    let p = preedit(&[("ab", SegmentStatus::Converted), ("c", SegmentStatus::Focused)], 3);
    let lay = composition_layout(&p, &atoms);
    assert_eq!(lay.display, vec![0x61, 0x62, 0x63]);
    assert_eq!(lay.caret, 3);
    assert_eq!(
        lay.ranges,
        vec![AttrRange { start: 0, stop: 2, atom: 22 }, AttrRange { start: 1, stop: 2, atom: 33 }]
    );
}

#[test]
fn commit_text_replaces_and_ends() {
    let plan = khiin_windows::composition::commit_text_plan("gí");
    assert_eq!(plan.replace_text, Some(vec![0x67, 0xED]));
    assert_eq!(plan.shift, 3);
    assert!(plan.end_composition);
}
