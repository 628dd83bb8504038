use vstd::prelude::*;
use vstd::string::StringExecFns;

use crate::geometry::Point;
use crate::geometry::Rect;
use crate::layout::fits_i32;
use crate::resource::IDI_MODE_ALPHA;
use crate::resource::IDI_MODE_BASIC;
use crate::resource::IDI_MODE_CONTINUOUS;
use crate::resource::IDI_MODE_PRO;
use crate::resource::IDI_SETTINGS;

verus! {

pub const BULLET_COL_WIDTH: i32 = 24;
pub const ICON_COL_WIDTH: i32 = 32;
pub const ICON_SIZE: i32 = 16;
pub const ROW_HEIGHT: i32 = 34;
pub const VPAD: i32 = 8;
pub const HPAD: i32 = 16;

/// An entry of the tray menu: a button with an icon and a text key, or a
/// separator.
#[derive(Debug)]
pub struct SystrayMenuItem {
    pub separator: bool,
    pub checked: bool,
    pub icon_rid: u16,
    pub string_key: String,
    pub rect: Rect,
}

impl SystrayMenuItem {
    /// A button.
    pub fn button(string_key: &str, icon_rid: u16, checked: bool) -> (r: Self)
        ensures
            !r.separator,
            r.checked == checked,
            r.icon_rid == icon_rid,
            r.string_key@ == string_key@,
            r.rect == Rect::default_rect(),
    {
        SystrayMenuItem {
            separator: false,
            checked,
            icon_rid,
            string_key: String::from_str(string_key),
            rect: Rect { origin: Point { x: 0, y: 0 }, width: 0, height: 0 },
        }
    }

    /// A separator.
    pub fn sep() -> (r: Self)
        ensures
            r.separator,
            !r.checked,
            r.icon_rid == 0,
            r.string_key@.len() == 0,
            r.rect == Rect::default_rect(),
    {
        SystrayMenuItem {
            separator: true,
            checked: false,
            icon_rid: 0,
            string_key: String::new(),
            rect: Rect { origin: Point { x: 0, y: 0 }, width: 0, height: 0 },
        }
    }
}

impl Rect {
    pub open spec fn default_rect() -> Rect {
        Rect { origin: Point { x: 0, y: 0 }, width: 0, height: 0 }
    }
}

/// The item kinds of the tray menu, in order: (separator, icon, checked).
pub open spec fn menu_shape() -> Seq<(bool, u16, bool)> {
    seq![
        (false, IDI_MODE_CONTINUOUS, true),
        (false, IDI_MODE_BASIC, false),
        (false, IDI_MODE_PRO, false),
        (false, IDI_MODE_ALPHA, false),
        (true, 0u16, false),
        (false, IDI_SETTINGS, false),
    ]
}

/// The items of the tray menu: the four input modes (continuous checked), a
/// separator, and the settings.
pub fn get_menu_items() -> (r: Vec<SystrayMenuItem>)
    ensures
        r@.len() == 6,
        forall|i: int|
            0 <= i < 6 ==> (#[trigger] r@[i].separator, r@[i].icon_rid, r@[i].checked)
                == menu_shape()[i],
        r@[0].string_key@ == "continuous"@,
        r@[1].string_key@ == "basic"@,
        r@[2].string_key@ == "manual"@,
        r@[3].string_key@ == "direct"@,
        r@[4].string_key@.len() == 0,
        r@[5].string_key@ == "settings"@,
        forall|i: int| 0 <= i < 6 ==> #[trigger] r@[i].rect == Rect::default_rect(),
{
    let mut ret: Vec<SystrayMenuItem> = Vec::new();
    ret.push(SystrayMenuItem::button("continuous", IDI_MODE_CONTINUOUS, true));
    ret.push(SystrayMenuItem::button("basic", IDI_MODE_BASIC, false));
    ret.push(SystrayMenuItem::button("manual", IDI_MODE_PRO, false));
    ret.push(SystrayMenuItem::button("direct", IDI_MODE_ALPHA, false));
    ret.push(SystrayMenuItem::sep());
    ret.push(SystrayMenuItem::button("settings", IDI_SETTINGS, false));
    ret
}

/// The top of item `i` when the items above it are laid out: padding, then
/// the rows above it (separators take the padding's height).
pub open spec fn item_top(seps: Seq<bool>, i: int, row_height: int) -> int
    decreases i,
{
    if i <= 0 {
        VPAD as int
    } else {
        item_top(seps, i - 1, row_height) + (if seps[i - 1] {
            VPAD as int
        } else {
            row_height
        })
    }
}

pub open spec fn menu_row_height(max_row_height: int) -> int {
    if ROW_HEIGHT >= max_row_height + VPAD {
        ROW_HEIGHT as int
    } else {
        max_row_height + VPAD
    }
}

pub open spec fn menu_width(max_item_width: int) -> int {
    max_item_width + BULLET_COL_WIDTH + ICON_COL_WIDTH + HPAD * 2
}

/// The separator flags of the items.
pub open spec fn separators(items: Seq<SystrayMenuItem>) -> Seq<bool> {
    items.map_values(|it: SystrayMenuItem| it.separator)
}

/// The largest width and the largest height among the text extents of the
/// first `n` items that are not separators (0 where there is none).
pub open spec fn max_text_extent(seps: Seq<bool>, extents: Seq<(i32, i32)>, n: int) -> (int, int)
    decreases n,
{
    if n <= 0 {
        (0, 0)
    } else {
        let (w, h) = max_text_extent(seps, extents, n - 1);
        if seps[n - 1] {
            (w, h)
        } else {
            (
                if extents[n - 1].0 > w {
                    extents[n - 1].0 as int
                } else {
                    w
                },
                if extents[n - 1].1 > h {
                    extents[n - 1].1 as int
                } else {
                    h
                },
            )
        }
    }
}

/// The largest text width and height over the menu's buttons, given the
/// measured extent of each item's text (separators are skipped); these are
/// what `layout_menu_items` takes.
pub fn max_item_extent(items: &Vec<SystrayMenuItem>, extents: &Vec<(i32, i32)>) -> (r: (i32, i32))
    requires
        extents@.len() == items@.len(),
    ensures
        (r.0 as int, r.1 as int) == max_text_extent(
            separators(items@),
            extents@,
            items@.len() as int,
        ),
{
    let mut w: i32 = 0;
    let mut h: i32 = 0;
    let mut i: usize = 0;
    while i < items.len()
        invariant
            extents@.len() == items@.len(),
            i <= items@.len(),
            (w as int, h as int) == max_text_extent(separators(items@), extents@, i as int),
        decreases items@.len() - i,
    {
        assert(separators(items@)[i as int] == items@[i as int].separator);
        if !items[i].separator {
            let (ew, eh) = extents[i];
            if ew > w {
                w = ew;
            }
            if eh > h {
                h = eh;
            }
        }
        i = i + 1;
    }
    (w, h)
}

/// Lays the menu items out one under the other, all as wide as the menu, and
/// returns the menu's width and height. `max_item_width` and `max_row_height`
/// are the largest text extents of the items.
pub fn layout_menu_items(items: &mut Vec<SystrayMenuItem>, max_item_width: i32, max_row_height: i32) -> (r:
    (i32, i32))
    requires
        fits_i32(menu_width(max_item_width as int)),
        fits_i32(max_row_height + VPAD),
        forall|i: int|
            0 <= i <= old(items)@.len() ==> #[trigger] fits_i32(
                item_top(separators(old(items)@), i, menu_row_height(max_row_height as int)) + VPAD,
            ),
        menu_row_height(max_row_height as int) >= 0,
    ensures
        final(items)@.len() == old(items)@.len(),
        r.0 == menu_width(max_item_width as int),
        r.1 == item_top(
            separators(old(items)@),
            old(items)@.len() as int,
            menu_row_height(max_row_height as int),
        ) + VPAD,
        forall|i: int|
            0 <= i < final(items)@.len() ==> {
                let it = #[trigger] final(items)@[i];
                let old_it = old(items)@[i];
                &&& it.separator == old_it.separator
                &&& it.checked == old_it.checked
                &&& it.icon_rid == old_it.icon_rid
                &&& it.string_key == old_it.string_key
                &&& it.rect == Rect {
                    origin: Point {
                        x: 0,
                        y: item_top(
                            separators(old(items)@),
                            i,
                            menu_row_height(max_row_height as int),
                        ) as i32,
                    },
                    width: menu_width(max_item_width as int) as i32,
                    height: (if old_it.separator {
                        VPAD as int
                    } else {
                        menu_row_height(max_row_height as int)
                    }) as i32,
                }
            },
{
    let ghost seps = separators(items@);
    let ghost rh = menu_row_height(max_row_height as int);
    let width = max_item_width + BULLET_COL_WIDTH + ICON_COL_WIDTH;
    let row_height = if ROW_HEIGHT >= max_row_height + VPAD {
        ROW_HEIGHT
    } else {
        max_row_height + VPAD
    };
    let total_width = width + HPAD * 2;
    let mut total_height = VPAD;
    let n = items.len();
    let mut i: usize = 0;
    while i < n
        invariant
            n == items@.len(),
            n == old(items)@.len(),
            i <= n,
            seps == separators(old(items)@),
            rh == row_height,
            rh >= 0,
            total_width == menu_width(max_item_width as int),
            forall|k: int|
                0 <= k <= n ==> #[trigger] fits_i32(item_top(seps, k, rh) + VPAD),
            total_height == item_top(seps, i as int, rh),
            forall|k: int| i <= k < n ==> #[trigger] items@[k] == old(items)@[k],
            forall|k: int|
                0 <= k < i ==> {
                    let it = #[trigger] items@[k];
                    let old_it = old(items)@[k];
                    &&& it.separator == old_it.separator
                    &&& it.checked == old_it.checked
                    &&& it.icon_rid == old_it.icon_rid
                    &&& it.string_key == old_it.string_key
                    &&& it.rect == Rect {
                        origin: Point { x: 0, y: item_top(seps, k, rh) as i32 },
                        width: total_width,
                        height: (if old_it.separator {
                            VPAD as int
                        } else {
                            rh
                        }) as i32,
                    }
                },
        decreases n - i,
    {
        assert(fits_i32(item_top(seps, i + 1, rh) + VPAD));
        assert(item_top(seps, i as int, rh) >= VPAD) by {
            lemma_item_top_lower(seps, i as int, rh);
        }
        assert(seps[i as int] == old(items)@[i as int].separator);
        let item_height = if items[i].separator {
            VPAD
        } else {
            row_height
        };
        let rect = Rect { origin: Point { x: 0, y: total_height }, width: total_width, height: item_height };
        let mut item = items.remove(i);
        item.rect = rect;
        items.insert(i, item);
        total_height = total_height + item_height;
        i = i + 1;
    }
    assert(fits_i32(item_top(seps, n as int, rh) + VPAD));
    total_height = total_height + VPAD;
    (total_width, total_height)
}

proof fn lemma_item_top_lower(seps: Seq<bool>, i: int, rh: int)
    requires
        rh >= 0,
    ensures
        item_top(seps, i, rh) >= VPAD,
    decreases i,
{
    if i > 0 {
        lemma_item_top_lower(seps, i - 1, rh);
    }
}

/// Where the popup goes: centred on `origin_x`, its bottom at `bottom`, and
/// moved left so it does not pass `max_width`.
pub fn popup_position(origin_x: i32, bottom: i32, w: i32, h: i32, max_width: i32) -> (r: (
    i32,
    i32,
))
    requires
        w >= 0,
        fits_i32(origin_x - w / 2),
        fits_i32(origin_x - w / 2 + w),
        fits_i32(bottom - h),
        origin_x - w / 2 + w > max_width ==> fits_i32(origin_x - w / 2 + w - max_width)
            && fits_i32(max_width - w),
    ensures
        r.1 == bottom - h,
        r.0 == (if origin_x - w / 2 + w > max_width {
            max_width - w
        } else {
            origin_x - w / 2
        }),
{
    let mut x = origin_x - w / 2;
    let y = bottom - h;
    if x + w > max_width {
        x = x - (x + w - max_width);
    }
    (x, y)
}

/// The item under `pt` (which is in unscaled pixels), and whether the
/// highlight changes to it: the first item covering the point gets the
/// highlight unless it already has it; otherwise nothing is highlighted.
pub fn menu_hit_test(items: &Vec<SystrayMenuItem>, highlighted: usize, pt: Point) -> (r: (
    usize,
    bool,
))
    ensures
        r.1 ==> r.0 < items@.len() && r.0 != highlighted && items@[r.0 as int].rect.spec_contains(
            pt,
        ) && forall|j: int|
            0 <= j < r.0 ==> (!items@[j].rect.spec_contains(pt) || j == highlighted),
        !r.1 ==> r.0 == usize::MAX && forall|j: int|
            0 <= j < items@.len() && #[trigger] items@[j].rect.spec_contains(pt) ==> j
                == highlighted,
{
    let n = items.len();
    let mut i: usize = 0;
    while i < n
        invariant
            n == items@.len(),
            i <= n,
            forall|j: int|
                0 <= j < i ==> (!#[trigger] items@[j].rect.spec_contains(pt) || j == highlighted),
        decreases n - i,
    {
        if items[i].rect.contains(pt) {
            if highlighted != i {
                return (i, true);
            }
        }
        i = i + 1;
    }
    (usize::MAX, false)
}

} // verus!
