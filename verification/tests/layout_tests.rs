use khiin_windows::geometry::empty_rect;
use khiin_windows::geometry::window_origin_marker;
use khiin_windows::geometry::Point;
use khiin_windows::geometry::Rect;
use khiin_windows::geometry::WinRect;
use khiin_windows::layout::CandidateLayout;
use khiin_windows::layout::Grid;
use khiin_windows::layout::GridCell;
use khiin_windows::layout::MeasuredCandidate;
use khiin_windows::pager::Candidate;
use khiin_windows::renderer::cell_style;

fn cand(id: i32, v: &str) -> Candidate {
    Candidate::new(id, v.to_string())
}

#[test]
fn rect_contains_is_half_open() {
    let r = Rect::new(Point { x: 10, y: 20 }, 5, 3);
    assert!(r.contains(Point { x: 10, y: 20 }));
    assert!(r.contains(Point { x: 14, y: 22 }));
    assert!(!r.contains(Point { x: 15, y: 22 }));
    assert!(!r.contains(Point { x: 14, y: 23 }));
    assert!(!r.contains(Point { x: 9, y: 21 }));
}

#[test]
fn grid_new_and_widen() {
    let mut g = Grid::new(3, 2, 50, 4);
    assert_eq!(g.col_widths, vec![50, 50]);
    assert_eq!(g.row_height, 0);
    g.ensure_col_width(1, 80);
    g.ensure_col_width(0, 30);
    assert_eq!(g.col_widths, vec![50, 80]);
    g.ensure_row_height(20);
    g.ensure_row_height(10);
    assert_eq!(g.row_height, 20);
    assert_eq!(g.row_height(), 24);
}

#[test]
fn grid_cells() {
    let mut g = Grid::new(3, 2, 50, 4);
    g.ensure_col_width(1, 80);
    g.ensure_row_height(20);
    assert_eq!(g.cell_rect(0, 0), Rect { origin: Point { x: 0, y: 0 }, width: 50, height: 24 });
    assert_eq!(g.cell_rect(2, 1), Rect { origin: Point { x: 50, y: 48 }, width: 80, height: 24 });
    let size = g.grid_size();
    assert_eq!(size.w, 130);
    assert_eq!(size.h, 3 * 20 + 4 * 4);
}

#[test]
fn grid_hit_test() {
    let mut g = Grid::new(3, 2, 50, 4);
    g.ensure_col_width(1, 80);
    g.ensure_row_height(20);
    assert_eq!(g.hit_test(Point { x: 60, y: 30 }), Some(GridCell { row: 1, col: 1 }));
    assert_eq!(g.hit_test(Point { x: 49, y: 0 }), Some(GridCell { row: 0, col: 0 }));
    assert_eq!(g.hit_test(Point { x: 50, y: 0 }), Some(GridCell { row: 0, col: 1 }));
    assert_eq!(g.hit_test(Point { x: 130, y: 0 }), None);
    assert_eq!(g.hit_test(Point { x: 0, y: 72 }), None);
    assert_eq!(g.hit_test(Point { x: -1, y: 5 }), None);
}

#[test]
fn candidate_layout_sizes_columns() {
    let cols = vec![
        vec![
            MeasuredCandidate { candidate: cand(1, "a"), layout: 'a', width: 30, height: 18 },
            MeasuredCandidate { candidate: cand(2, "bb"), layout: 'b', width: 70, height: 22 },
        ],
        vec![MeasuredCandidate { candidate: cand(3, "c"), layout: 'c', width: 10, height: 16 }],
    ];
    let lay = CandidateLayout::new(cols, 40, 2, 20).unwrap();
    assert_eq!(lay.grid.cols, 2);
    assert_eq!(lay.grid.rows, 2);
    assert_eq!(lay.grid.col_widths, vec![94, 40]);
    assert_eq!(lay.grid.row_height, 22);
    assert_eq!(lay.get(1, 0).map(|x| (x.0.id, x.1)), Some((2, 'b')));
    assert!(lay.get(1, 1).is_none());
    assert_eq!(lay.hit_test(Point { x: 100, y: 3 }).map(|c| c.id), Some(3));
    assert_eq!(lay.hit_test(Point { x: 5, y: 30 }).map(|c| c.id), Some(2));
    assert!(lay.hit_test(Point { x: 100, y: 30 }).is_none());
    let none: Option<CandidateLayout<char>> = CandidateLayout::new(vec![], 40, 2, 20);
    assert!(none.is_none());
}

#[test]
fn cell_styles() {
    let s = cell_style(5, 5, 0, 1, 1, true);
    assert!(s.focused_background && s.bubble && s.quick_select && s.quick_select_active);
    let s = cell_style(7, 5, 7, 0, 1, false);
    assert!(s.focused_background && !s.bubble && !s.quick_select && !s.quick_select_active);
    let s = cell_style(8, 5, 7, 0, 0, false);
    assert!(!s.focused_background && !s.bubble && s.quick_select);
}

#[test]
fn win_rects() {
    let r = WinRect { left: 10, top: 20, right: 110, bottom: 70 };
    assert_eq!(r.to_rect(), Rect { origin: Point { x: 10, y: 20 }, width: 100, height: 50 });
    assert!(empty_rect(&WinRect::default()));
    assert!(!empty_rect(&r));
    assert_eq!(window_origin_marker(true, &r), WinRect { left: 10, top: 20, right: 11, bottom: 21 });
    assert_eq!(window_origin_marker(false, &r), r);
}

#[test]
fn cells_tile_and_fit_in_grid() {
    let mut g = khiin_windows::layout::Grid::new(3, 2, 10, 2);
    g.ensure_col_width(1, 25);
    g.ensure_row_height(14);
    let size = g.grid_size();
    for row in 0..3 {
        for col in 0..2 {
            let r = g.cell_rect(row, col);
            assert!(r.origin.x + r.width <= size.w);
            assert!(r.origin.y + r.height <= size.h);
            if col == 0 {
                assert_eq!(g.cell_rect(row, 1).origin.x, r.origin.x + r.width);
            }
        }
    }
}
