use khiin_windows::candidate_list_ui::on_command;
use khiin_windows::candidate_list_ui::page_index;
use khiin_windows::candidate_list_ui::selection_in_range;
use khiin_windows::candidate_list_ui::updated_flags;
use khiin_windows::candidate_list_ui::CandidateListTracker;
use khiin_windows::candidate_list_ui::TF_CLUIE_COUNT;
use khiin_windows::candidate_list_ui::TF_CLUIE_CURRENTPAGE;
use khiin_windows::candidate_list_ui::TF_CLUIE_PAGEINDEX;
use khiin_windows::candidate_list_ui::TF_CLUIE_SELECTION;
use khiin_windows::candidate_list_ui::TF_CLUIE_STRING;
use khiin_windows::pager::Candidate;
use khiin_windows::pager::CandidatePage;
use khiin_windows::pager::DisplayMode;
use khiin_windows::pager::EditState;
use khiin_windows::pager::Pager;

fn cands(n: i32) -> Vec<Candidate> {
    (0..n).map(|i| Candidate::new(100 + i, format!("c{}", i))).collect()
}

fn ids(page: &CandidatePage) -> Vec<Vec<i32>> {
    page.candidates.iter().map(|c| c.iter().map(|x| x.id).collect()).collect()
}

#[test]
fn empty_pager() {
    let p = Pager::empty();
    assert_eq!(p.candidate_count(), 0);
    assert_eq!(p.page_count(), 0);
    let page = p.get_page();
    assert!(page.candidates.is_empty());
    assert_eq!(page.display_mode, DisplayMode::ShortColumn);
}

#[test]
fn short_column_paging() {
    let p = Pager::new(cands(12), EditState::Composing);
    assert_eq!(p.candidate_count(), 12);
    assert_eq!(p.max_col_size(), 5);
    assert_eq!(p.max_cols_per_page(), 1);
    assert_eq!(p.max_page_size(), 5);
    assert_eq!(p.page_count(), 3);
    assert_eq!(p.total_cols(), 3);
    assert_eq!(p.current_page(), 0);
    assert_eq!(p.start_index(), 0);
    assert_eq!(p.end_index(), 5);
    assert_eq!(p.focused_col(), 0);
    assert_eq!(p.candidate_id_at_index(11), Some(111));
    assert_eq!(p.candidate_id_at_index(12), None);
}

#[test]
fn first_page_takes_one_extra_candidate_into_a_second_column() {
    let p = Pager::new(cands(12), EditState::Composing);
    let page = p.get_page();
    assert_eq!(ids(&page), vec![vec![100, 101, 102, 103, 104], vec![105]]);
    assert!(!page.quickselect_active);
    assert_eq!(page.focused_index, 0);
}

#[test]
fn focus_moves_to_long_columns() {
    let mut p = Pager::new(cands(25), EditState::Selecting);
    p.set_focus(107);
    assert_eq!(p.focused_index(), 7);
    assert_eq!(p.get_page().display_mode, DisplayMode::LongColumn);
    assert_eq!(p.max_col_size(), 10);
    assert_eq!(p.max_page_size(), 10);
    assert_eq!(p.current_page(), 0);
    assert_eq!(p.current_col(), 0);
    assert_eq!(p.page_count(), 3);
    let page = p.get_page();
    assert!(page.quickselect_active);
    assert_eq!(page.focused_id, 107);
    assert_eq!(page.focused_col, 0);
    assert_eq!(ids(&page), vec![(100..110).collect::<Vec<i32>>(), vec![110]]);
}

#[test]
fn later_pages_stay_in_one_column() {
    let mut p = Pager::new(cands(25), EditState::Selecting);
    p.set_focus(113);
    assert_eq!(p.current_page(), 1);
    assert_eq!(p.start_index(), 10);
    assert_eq!(p.end_index(), 20);
    assert_eq!(p.current_col(), 1);
    let page = p.get_page();
    assert_eq!(ids(&page), vec![(110..121).collect::<Vec<i32>>()]);
    p.set_focus(124);
    assert_eq!(p.end_index(), 25);
    assert_eq!(ids(&p.get_page()), vec![(120..125).collect::<Vec<i32>>()]);
}

#[test]
fn unknown_focus_keeps_index() {
    let mut p = Pager::new(cands(4), EditState::Composing);
    p.set_focus(102);
    assert_eq!(p.focused_index(), 2);
    p.set_focus(999);
    assert_eq!(p.focused_index(), 2);
    assert_eq!(p.get_page().focused_id, 999);
    assert_eq!(p.get_page().display_mode, DisplayMode::ShortColumn);
}

#[test]
fn focus_takes_first_of_equal_ids() {
    let mut list = cands(8);
    list[6].id = 103;
    let mut p = Pager::new(list, EditState::Composing);
    p.set_focus(103);
    assert_eq!(p.focused_index(), 3);
}

#[test]
fn page_index_fills_buffer() {
    let p = Pager::new(cands(12), EditState::Composing);
    assert_eq!(page_index(&p, 3), (3, Some(vec![0, 5, 10])));
    assert_eq!(page_index(&p, 2), (3, None));
}

#[test]
fn updated_flag_bits() {
    let always = TF_CLUIE_CURRENTPAGE | TF_CLUIE_PAGEINDEX | TF_CLUIE_SELECTION;
    assert_eq!(updated_flags(false), always);
    assert_eq!(updated_flags(true), always | TF_CLUIE_STRING | TF_CLUIE_COUNT);
    assert_eq!(updated_flags(false), 0x34);
}

#[test]
fn selection_must_be_in_the_list() {
    assert!(selection_in_range(2, 3));
    assert!(!selection_in_range(3, 3));
}

#[test]
fn modified_lists() {
    let mut t = CandidateListTracker { prev_candidates: cands(2), candidates: cands(3) };
    assert!(t.is_candidate_list_modified());
    assert_eq!(t.prev_candidates.len(), 2);
    let one = vec![Candidate::new(1, "a".to_string())];
    let mut t = CandidateListTracker { prev_candidates: one.clone(), candidates: vec![Candidate::new(9, "a".to_string())] };
    assert!(!t.is_candidate_list_modified());
    assert_eq!(t.prev_candidates[0].id, 9);
    let mut t = CandidateListTracker { prev_candidates: cands(2), candidates: cands(2) };
    assert!(t.is_candidate_list_modified());
}

#[test]
fn commands_update_the_pager() {
    let mut p = Pager::new(cands(3), EditState::Composing);
    on_command(&mut p, cands(7), EditState::Composing, 0);
    assert_eq!(p.candidate_count(), 7);
    on_command(&mut p, vec![], EditState::Selecting, 106);
    assert_eq!(p.candidate_count(), 7);
    assert_eq!(p.focused_index(), 6);
    assert_eq!(p.max_col_size(), 10);
    on_command(&mut p, vec![], EditState::Selecting, 999);
    assert_eq!(p.focused_index(), 6);
    assert_eq!(p.candidate_count(), 7);
}
