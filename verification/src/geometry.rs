use vstd::prelude::*;

verus! {

/// A point in device pixels.
#[derive(PartialEq, Eq, Structural, Clone, Copy, Debug, Default)]
pub struct Point {
    pub x: i32,
    pub y: i32,
}

/// A width and a height.
#[derive(PartialEq, Eq, Structural, Clone, Copy, Debug, Default)]
pub struct Size {
    pub w: i32,
    pub h: i32,
}

/// An axis-aligned rectangle given by its top-left corner and its size. It
/// covers the points `left <= x < right`, `top <= y < bottom`.
#[derive(PartialEq, Eq, Structural, Clone, Copy, Debug, Default)]
pub struct Rect {
    pub origin: Point,
    pub width: i32,
    pub height: i32,
}

impl Rect {
    pub open spec fn spec_left(self) -> int {
        self.origin.x as int
    }

    pub open spec fn spec_top(self) -> int {
        self.origin.y as int
    }

    pub open spec fn spec_right(self) -> int {
        self.origin.x + self.width
    }

    pub open spec fn spec_bottom(self) -> int {
        self.origin.y + self.height
    }

    /// Whether the rectangle covers the point.
    pub open spec fn spec_contains(self, pt: Point) -> bool {
        self.spec_left() <= pt.x < self.spec_right() && self.spec_top() <= pt.y
            < self.spec_bottom()
    }

    pub fn new(origin: Point, width: i32, height: i32) -> (r: Rect)
        ensures
            r == (Rect { origin, width, height }),
    {
        Rect { origin, width, height }
    }

    /// Whether the rectangle covers the point.
    pub fn contains(&self, pt: Point) -> (r: bool)
        ensures
            r == self.spec_contains(pt),
    {
        let x = pt.x as i64;
        let y = pt.y as i64;
        let left = self.origin.x as i64;
        let top = self.origin.y as i64;
        left <= x && x < left + self.width as i64 && top <= y && y < top + self.height as i64
    }
}

/// A rectangle given by its four edges, as Win32 keeps it.
#[derive(PartialEq, Eq, Structural, Clone, Copy, Debug, Default)]
pub struct WinRect {
    pub left: i32,
    pub top: i32,
    pub right: i32,
    pub bottom: i32,
}

impl WinRect {
    /// The same rectangle as an origin and a size.
    pub fn to_rect(&self) -> (r: Rect)
        requires
            i32::MIN <= self.right - self.left <= i32::MAX,
            i32::MIN <= self.bottom - self.top <= i32::MAX,
        ensures
            r.origin == (Point { x: self.left, y: self.top }),
            r.width == self.right - self.left,
            r.height == self.bottom - self.top,
    {
        Rect {
            origin: Point { x: self.left, y: self.top },
            width: self.right - self.left,
            height: self.bottom - self.top,
        }
    }
}

/// Whether all four edges are zero: what a failed text-extent query leaves.
pub fn empty_rect(rect: &WinRect) -> (r: bool)
    ensures
        r == (rect.left == 0 && rect.top == 0 && rect.right == 0 && rect.bottom == 0),
{
    rect.left == 0 && rect.top == 0 && rect.right == 0 && rect.bottom == 0
}

/// The one-pixel rectangle at the top-left corner of a window, when the
/// window's rectangle was found; the rectangle as it is otherwise.
pub fn window_origin_marker(found: bool, rect: &WinRect) -> (r: WinRect)
    requires
        found ==> rect.left < i32::MAX && rect.top < i32::MAX,
    ensures
        found ==> r == (WinRect {
            left: rect.left,
            top: rect.top,
            right: (rect.left + 1) as i32,
            bottom: (rect.top + 1) as i32,
        }),
        !found ==> r == *rect,
{
    if found {
        WinRect { left: rect.left, top: rect.top, right: rect.left + 1, bottom: rect.top + 1 }
    } else {
        *rect
    }
}

/// Whether a text-extent query gave a usable rectangle: it succeeded and
/// the rectangle is not all zeros.
pub open spec fn usable_rect(r: Option<WinRect>) -> bool {
    r matches Some(rect) && !(rect.left == 0 && rect.top == 0 && rect.right == 0 && rect.bottom
        == 0)
}

/// Where the candidate window goes: the rectangle of the composition's text
/// where that query gave one, else the rectangle of the default selection,
/// else the one-pixel marker at the top-left corner of the window
/// (`window_found` and `window_rect` are what the window's rectangle query
/// gave). A query that failed counts as giving nothing.
pub fn text_position_from(
    composition: Option<WinRect>,
    selection: Option<WinRect>,
    window_found: bool,
    window_rect: &WinRect,
) -> (r: WinRect)
    requires
        window_found ==> window_rect.left < i32::MAX && window_rect.top < i32::MAX,
    ensures
        usable_rect(composition) ==> r == composition->0,
        !usable_rect(composition) && usable_rect(selection) ==> r == selection->0,
        !usable_rect(composition) && !usable_rect(selection) ==> {
            &&& window_found ==> r == (WinRect {
                left: window_rect.left,
                top: window_rect.top,
                right: (window_rect.left + 1) as i32,
                bottom: (window_rect.top + 1) as i32,
            })
            &&& !window_found ==> r == *window_rect
        },
{
    if let Some(rect) = composition {
        if !empty_rect(&rect) {
            return rect;
        }
    }
    if let Some(rect) = selection {
        if !empty_rect(&rect) {
            return rect;
        }
    }
    window_origin_marker(window_found, window_rect)
}

} // verus!
