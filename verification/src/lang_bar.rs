use vstd::prelude::*;
use std::collections::HashMap;

use crate::layout::fits_i32;

verus! {

// ---------------------------------------------------------------------------
// Sinks advised to the language bar item
// ---------------------------------------------------------------------------

/// Whether `cookie` is the cookie handed out next when `cookies` are in use:
/// one more than the largest of them, so above all of them (one when there
/// is none).
pub open spec fn is_next_cookie(cookies: Set<u32>, cookie: u32) -> bool {
    &&& forall|k: u32| #[trigger] cookies.contains(k) ==> k < cookie
    &&& cookies.is_empty() ==> cookie == 1
    &&& !cookies.is_empty() ==> cookie >= 1 && cookies.contains((cookie - 1) as u32)
}

/// The sinks advised to the language bar item, by cookie.
pub struct SinkMap<T> {
    sinks: HashMap<u32, T>,
}

impl<T> View for SinkMap<T> {
    type V = Map<u32, T>;

    /// The sinks by cookie.
    closed spec fn view(&self) -> Map<u32, T> {
        self.sinks@
    }
}

impl<T> SinkMap<T> {
    /// No sinks.
    pub fn new() -> (r: Self)
        ensures
            r@ == Map::<u32, T>::empty(),
    {
        SinkMap { sinks: HashMap::new() }
    }

    /// The number of sinks.
    pub fn len(&self) -> (r: usize)
        ensures
            r == self@.len(),
    {
        broadcast use vstd::std_specs::hash::group_hash_axioms;

        self.sinks.len()
    }

    /// The sink advised under `cookie`, if any.
    pub fn get(&self, cookie: u32) -> (r: Option<&T>)
        ensures
            match r {
                Some(s) => self@.contains_key(cookie) && *s == self@[cookie],
                None => !self@.contains_key(cookie),
            },
    {
        broadcast use vstd::std_specs::hash::group_hash_axioms;

        self.sinks.get(&cookie)
    }

    /// The cookies in use, each once, in no particular order.
    pub fn cookies(&self) -> (r: Vec<u32>)
        ensures
            r@.to_set() == self@.dom(),
            r@.no_duplicates(),
    {
        broadcast use vstd::std_specs::hash::group_hash_axioms;

        let mut out: Vec<u32> = Vec::new();
        for k in it: self.sinks.keys()
            invariant
                it.seq().unref().to_set() == self@.dom(),
                it.seq().no_duplicates(),
                out@ == it.seq().take(it.index() as int).unref(),
                out@.no_duplicates(),
                it.index() == it.seq().len() ==> out@.to_set() == self@.dom(),
        {
            proof {
                assert forall|a: int| 0 <= a < out@.len() implies out@[a] != *k by {
                    assert(out@[a] == *it.seq()[a]);
                }
            }
            out.push(*k);
            proof {
                assert(out@ =~= it.seq().take(it.index() + 1).unref());
                assert(it.seq().take(it.seq().len() as int) =~= it.seq());
            }
        }
        out
    }

    /// Adds a sink under a new cookie, one more than the largest cookie in use
    /// (so one for the first sink).
    pub fn advise_sink(&mut self, sink: T) -> (cookie: u32)
        requires
            forall|k: u32| #[trigger] old(self)@.contains_key(k) ==> k < u32::MAX,
        ensures
            is_next_cookie(old(self)@.dom(), cookie),
            !old(self)@.contains_key(cookie),
            final(self)@ == old(self)@.insert(cookie, sink),
    {
        broadcast use vstd::std_specs::hash::group_hash_axioms;

        let mut m: u32 = 0;
        for k in it: self.sinks.keys()
            invariant
                it.seq().unref().to_set() == self@.dom(),
                forall|k: u32| #[trigger] self@.contains_key(k) ==> k < u32::MAX,
                forall|j: int| 0 <= j < it.index() ==> *#[trigger] it.seq()[j] <= m,
                m == 0 || exists|j: int| 0 <= j < it.index() && *#[trigger] it.seq()[j] == m,
                it.index() == it.seq().len() ==> (forall|k: u32|
                    #[trigger] self@.contains_key(k) ==> k <= m) && (m == 0 || self@.contains_key(
                    m,
                )),
        {
            if *k > m {
                m = *k;
            }
            proof {
                let ks = it.seq().unref();
                assert forall|k: u32|
                    it.index() + 1 == it.seq().len() && #[trigger] self@.contains_key(k) implies k
                    <= m by {
                    assert(ks.to_set().contains(k));
                    let j = choose|j: int| 0 <= j < ks.len() && ks[j] == k;
                    assert(ks[j] == *it.seq()[j]);
                }
                assert(it.index() + 1 == it.seq().len() && m != 0 ==> self@.contains_key(m)) by {
                    assert forall|j: int|
                        0 <= j < it.index() + 1 && *#[trigger] it.seq()[j] == m implies ks.to_set().contains(
                        m,
                    ) by {
                        assert(ks[j] == m);
                        assert(ks.contains(m));
                    }
                }
            }
        }
        proof {
            if !self@.dom().is_empty() && m == 0 {
                let k0 = self@.dom().choose();
                assert(self@.contains_key(k0));
            }
        }
        let cookie = m + 1;
        self.sinks.insert(cookie, sink);
        cookie
    }

    /// Removes the sink of `cookie`; false when no sink has that cookie.
    pub fn unadvise_sink(&mut self, cookie: u32) -> (r: bool)
        ensures
            r == old(self)@.contains_key(cookie),
            final(self)@ == old(self)@.remove(cookie),
    {
        broadcast use vstd::std_specs::hash::group_hash_axioms;

        match self.sinks.remove(&cookie) {
            Some(_) => true,
            None => false,
        }
    }
}

/// Why a sink is refused by the language bar item.
#[derive(PartialEq, Eq, Structural, Clone, Copy, Debug)]
pub enum AdviseError {
    /// The sink was advised for another interface than the language bar
    /// item sink (CONNECT_E_CANNOTCONNECT).
    CannotConnect,
    /// No sink object was given (E_INVALIDARG).
    InvalidArg,
}

impl<T> SinkMap<T> {
    /// Advises a sink: refused for another interface than the language bar
    /// item sink, then refused when no sink object is given; otherwise the
    /// sink is added under a new cookie as `advise_sink` does. A refusal
    /// leaves the table as it was.
    pub fn advise(&mut self, for_lang_bar_item_sink: bool, sink: Option<T>) -> (r: Result<
        u32,
        AdviseError,
    >)
        requires
            for_lang_bar_item_sink && sink is Some ==> forall|k: u32|
                #[trigger] old(self)@.contains_key(k) ==> k < u32::MAX,
        ensures
            !for_lang_bar_item_sink ==> r == Err::<u32, AdviseError>(AdviseError::CannotConnect),
            for_lang_bar_item_sink && sink is None ==> r == Err::<u32, AdviseError>(
                AdviseError::InvalidArg,
            ),
            r is Err ==> final(self)@ == old(self)@,
            for_lang_bar_item_sink && sink is Some ==> (r matches Ok(cookie) && is_next_cookie(
                old(self)@.dom(),
                cookie,
            ) && !old(self)@.contains_key(cookie) && final(self)@ == old(self)@.insert(
                cookie,
                sink->0,
            )),
    {
        if !for_lang_bar_item_sink {
            return Err(AdviseError::CannotConnect);
        }
        match sink {
            None => Err(AdviseError::InvalidArg),
            Some(s) => Ok(self.advise_sink(s)),
        }
    }
}

/// A sink advised and then unadvised under its cookie leaves the table as it
/// was; and a cookie handed out next is never one in use.
pub proof fn lemma_advise_unadvise_round_trip<T>(sinks: Map<u32, T>, cookie: u32, sink: T)
    requires
        is_next_cookie(sinks.dom(), cookie),
    ensures
        !sinks.contains_key(cookie),
        sinks.insert(cookie, sink).remove(cookie) == sinks,
{
    assert(sinks.insert(cookie, sink).remove(cookie) =~= sinks);
}

// ---------------------------------------------------------------------------
// Click and icon
// ---------------------------------------------------------------------------

pub const TF_LBI_CLK_RIGHT: i32 = 1;
pub const TF_LBI_CLK_LEFT: i32 = 2;

/// What a click on the language bar item does.
#[derive(PartialEq, Eq, Structural, Clone, Copy, Debug)]
pub enum LangBarClick {
    ToggleEnabled,
    OpenSettings,
    Nothing,
}

/// A left click switches the IME on or off, a right click opens the settings.
pub fn click_action(click: i32) -> (r: LangBarClick)
    ensures
        r == (if click == TF_LBI_CLK_LEFT {
            LangBarClick::ToggleEnabled
        } else if click == TF_LBI_CLK_RIGHT {
            LangBarClick::OpenSettings
        } else {
            LangBarClick::Nothing
        }),
{
    if click == TF_LBI_CLK_LEFT {
        LangBarClick::ToggleEnabled
    } else if click == TF_LBI_CLK_RIGHT {
        LangBarClick::OpenSettings
    } else {
        LangBarClick::Nothing
    }
}

/// The label of the input-mode icon: "由" in manual mode, "動" otherwise.
pub fn mode_icon_label(manual_mode: bool) -> (r: &'static str)
    ensures
        r@ == (if manual_mode {
            "\u{7531}"@
        } else {
            "\u{52d5}"@
        }),
{
    if manual_mode {
        "\u{7531}"
    } else {
        "\u{52d5}"
    }
}

/// The badge's background and text grey levels.
pub const BADGE_BG: u32 = 0xF5;
pub const BADGE_FG: u32 = 0x20;

/// The grey level of a badge pixel whose text coverage is `cov`: the text
/// colour blended over the background.
pub open spec fn badge_level(cov: int) -> int {
    (BADGE_BG * (255 - cov) + BADGE_FG * cov) / 255
}

/// The coverage of a drawn pixel: its brightest channel.
pub open spec fn coverage(v: u32) -> int {
    let b = v % 0x100;
    let g = (v / 0x100) % 0x100;
    let r = (v / 0x10000) % 0x100;
    let rg = if r >= g {
        r
    } else {
        g
    };
    if rg >= b {
        rg as int
    } else {
        b as int
    }
}

/// An opaque grey pixel of level `c`.
pub open spec fn opaque_grey(c: int) -> u32 {
    (0xFF000000 + c * 0x10000 + c * 0x100 + c) as u32
}

/// The badge pixel for a pixel of white text drawn on black.
pub open spec fn spec_badge_pixel(v: u32) -> u32 {
    opaque_grey(badge_level(coverage(v)))
}

/// Turns a pixel of white antialiased text on black into the badge's opaque
/// pixel: the text's coverage blends the dark text over the light badge.
pub fn badge_pixel(v: u32) -> (r: u32)
    ensures
        r == spec_badge_pixel(v),
{
    assert(v & 0xFF == v % 0x100) by (bit_vector);
    assert((v >> 8) & 0xFF == (v / 0x100) % 0x100) by (bit_vector);
    assert((v >> 16) & 0xFF == (v / 0x10000) % 0x100) by (bit_vector);
    let b = v & 0xFF;
    let g = (v >> 8) & 0xFF;
    let r = (v >> 16) & 0xFF;
    let rg = if r >= g {
        r
    } else {
        g
    };
    let cov = if rg >= b {
        rg
    } else {
        b
    };
    let inv = 255 - cov;
    let c = (BADGE_BG * inv + BADGE_FG * cov) / 255;
    assert(c <= 0xF5) by (nonlinear_arith)
        requires
            c == (BADGE_BG * inv + BADGE_FG * cov) / 255,
            inv + cov == 255,
            cov <= 255,
            BADGE_BG == 0xF5,
            BADGE_FG == 0x20,
    ;
    assert((0xFFu32 << 24) | (c << 16) | (c << 8) | c == (0xFF000000u32 + c * 0x10000 + c * 0x100
        + c) as u32) by (bit_vector)
        requires
            c <= 0xF5,
    ;
    (0xFFu32 << 24) | (c << 16) | (c << 8) | c
}

/// Turns every pixel of the drawn label into the badge.
pub fn recolor_badge(pixels: &mut Vec<u32>)
    ensures
        final(pixels)@.len() == old(pixels)@.len(),
        forall|i: int|
            0 <= i < final(pixels)@.len() ==> #[trigger] final(pixels)@[i] == spec_badge_pixel(
                old(pixels)@[i],
            ),
{
    let n = pixels.len();
    let mut i: usize = 0;
    while i < n
        invariant
            n == pixels@.len(),
            n == old(pixels)@.len(),
            i <= n,
            forall|k: int| 0 <= k < i ==> #[trigger] pixels@[k] == spec_badge_pixel(old(pixels)@[k]),
            forall|k: int| i <= k < n ==> #[trigger] pixels@[k] == old(pixels)@[k],
        decreases n - i,
    {
        let v = pixels[i];
        pixels.set(i, badge_pixel(v));
        i = i + 1;
    }
}

/// Every badge pixel is opaque and grey, between the text and the
/// background level.
pub proof fn lemma_badge_pixel_opaque_grey(v: u32)
    ensures
        spec_badge_pixel(v) / 0x1000000 == 0xFF,
        BADGE_FG <= badge_level(coverage(v)) <= BADGE_BG,
        spec_badge_pixel(v) == opaque_grey(badge_level(coverage(v))),
{
    let cov = coverage(v);
    assert(0 <= cov <= 255);
    let c = badge_level(cov);
    assert(0x20 <= c <= 0xF5) by (nonlinear_arith)
        requires
            c == (0xF5 * (255 - cov) + 0x20 * cov) / 255,
            0 <= cov <= 255,
    ;
}

/// The icon's size in pixels: the system's small-icon width, or 16 when the
/// system reports none.
pub fn icon_size(cx: i32) -> (r: i32)
    ensures
        r == (if cx <= 0 {
            16
        } else {
            cx
        }),
{
    if cx <= 0 {
        16
    } else {
        cx
    }
}

/// The font height for the label: three quarters of the icon, as a
/// character height (negative).
pub fn label_font_height(size: i32) -> (r: i32)
    requires
        size > 0,
        fits_i32(size * 3),
    ensures
        r == -((size * 3) / 4),
{
    -(size * 3 / 4)
}

} // verus!
