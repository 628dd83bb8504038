use vstd::prelude::*;
use vstd::string::StrSliceExecFns;

verus! {

// ---------------------------------------------------------------------------
// Words and bytes of packed Win32 message parameters
// ---------------------------------------------------------------------------

/// The low 16 bits of a 32-bit value.
pub open spec fn spec_lo_word(value: u32) -> u16 {
    (value % 0x10000) as u16
}

/// The high 16 bits of a 32-bit value.
pub open spec fn spec_hi_word(value: u32) -> u16 {
    (value / 0x10000) as u16
}

/// The low 8 bits of a 16-bit value.
pub open spec fn spec_lo_byte(value: u16) -> u8 {
    (value % 0x100) as u8
}

/// The high 8 bits of a 16-bit value.
pub open spec fn spec_hi_byte(value: u16) -> u8 {
    (value / 0x100) as u8
}

/// A 16-bit word read as a two's-complement signed number.
pub open spec fn signed_word(w: u16) -> int {
    if w < 0x8000 {
        w as int
    } else {
        w as int - 0x10000
    }
}

/// Returns the low-order word of `value`.
pub fn lo_word(value: u32) -> (r: u16)
    ensures
        r == spec_lo_word(value),
{
    assert(value & 0xffff == value % 0x10000) by (bit_vector);
    (value & 0xffff) as u16
}

/// Returns the high-order word of `value`.
pub fn hi_word(value: u32) -> (r: u16)
    ensures
        r == spec_hi_word(value),
{
    assert((value >> 16) & 0xffff == value / 0x10000) by (bit_vector);
    ((value >> 16) & 0xffff) as u16
}

/// Returns the low-order byte of `value`.
pub fn lo_byte(value: u16) -> (r: u8)
    ensures
        r == spec_lo_byte(value),
{
    assert(value & 0xff == value % 0x100) by (bit_vector);
    (value & 0xff) as u8
}

/// Returns the high-order byte of `value`.
pub fn hi_byte(value: u16) -> (r: u8)
    ensures
        r == spec_hi_byte(value),
{
    assert((value >> 8) & 0xff == value / 0x100) by (bit_vector);
    ((value >> 8) & 0xff) as u8
}

fn signed_from_word(w: u16) -> (r: i32)
    ensures
        r == signed_word(w),
{
    if w < 0x8000 {
        w as i32
    } else {
        w as i32 - 0x10000
    }
}

/// The x coordinate packed into the low word of a mouse message's `lParam`,
/// sign-extended (GET_X_LPARAM).
pub fn get_x_param(lparam: isize) -> (r: i32)
    ensures
        r == signed_word(spec_lo_word(lparam as u32)),
{
    signed_from_word(lo_word(lparam as u32))
}

/// The y coordinate packed into the high word of a mouse message's `lParam`,
/// sign-extended (GET_Y_LPARAM).
pub fn get_y_param(lparam: isize) -> (r: i32)
    ensures
        r == signed_word(spec_hi_word(lparam as u32)),
{
    signed_from_word(hi_word(lparam as u32))
}

/// A 32-bit value is the concatenation of its high and low words.
pub proof fn lemma_word_split(value: u32)
    ensures
        spec_hi_word(value) as int * 0x10000 + spec_lo_word(value) as int == value as int,
{
}

/// A 16-bit value is the concatenation of its high and low bytes.
pub proof fn lemma_byte_split(value: u16)
    ensures
        spec_hi_byte(value) as int * 0x100 + spec_lo_byte(value) as int == value as int,
{
}

/// A sign-extended word always fits in 16 signed bits and agrees with the
/// word modulo 2^16.
pub proof fn lemma_signed_word_range(w: u16)
    ensures
        -0x8000 <= signed_word(w) < 0x8000,
        (signed_word(w) + 0x10000) % 0x10000 == w as int,
{
}

// ---------------------------------------------------------------------------
// UTF-16
// ---------------------------------------------------------------------------

/// The UTF-16 code units of one Unicode scalar value: itself below U+10000,
/// a surrogate pair above.
pub open spec fn utf16_of_char(c: char) -> Seq<u16> {
    let v = c as int;
    if v < 0x10000 {
        seq![v as u16]
    } else {
        seq![(0xD800 + (v - 0x10000) / 0x400) as u16, (0xDC00 + (v - 0x10000) % 0x400) as u16]
    }
}

/// The UTF-16 encoding of a string.
pub open spec fn utf16_encode(s: Seq<char>) -> Seq<u16>
    decreases s.len(),
{
    if s.len() == 0 {
        seq![]
    } else {
        utf16_encode(s.drop_last()) + utf16_of_char(s.last())
    }
}

/// Each 16-bit unit as two bytes, least significant first.
pub open spec fn le_bytes(units: Seq<u16>) -> Seq<u8>
    decreases units.len(),
{
    if units.len() == 0 {
        seq![]
    } else {
        le_bytes(units.drop_last()) + seq![
            (units.last() % 0x100) as u8,
            (units.last() / 0x100) as u8,
        ]
    }
}

/// Encoding a concatenation gives the concatenation of the encodings.
pub proof fn lemma_utf16_concat(a: Seq<char>, b: Seq<char>)
    ensures
        utf16_encode(a + b) == utf16_encode(a) + utf16_encode(b),
    decreases b.len(),
{
    if b.len() == 0 {
        assert(a + b =~= a);
    } else {
        lemma_utf16_concat(a, b.drop_last());
        assert((a + b).drop_last() =~= a + b.drop_last());
        assert((a + b).last() == b.last());
    }
}

/// Every character takes one or two code units, so the encoding is at least
/// as long as the string and at most twice as long.
pub proof fn lemma_utf16_len(s: Seq<char>)
    ensures
        s.len() <= utf16_encode(s).len() <= 2 * s.len(),
    decreases s.len(),
{
    if s.len() > 0 {
        lemma_utf16_len(s.drop_last());
    }
}

/// The little-endian bytes of a concatenation are the concatenation of the
/// bytes.
pub proof fn lemma_le_bytes_concat(a: Seq<u16>, b: Seq<u16>)
    ensures
        le_bytes(a + b) == le_bytes(a) + le_bytes(b),
    decreases b.len(),
{
    if b.len() == 0 {
        assert(a + b =~= a);
    } else {
        lemma_le_bytes_concat(a, b.drop_last());
        assert((a + b).drop_last() =~= a + b.drop_last());
    }
}

/// Two bytes per unit, and byte `2i` / `2i + 1` are the low / high byte of
/// unit `i`.
pub proof fn lemma_le_bytes_index(units: Seq<u16>)
    ensures
        le_bytes(units).len() == 2 * units.len(),
        forall|i: int|
            0 <= i < units.len() ==> #[trigger] le_bytes(units)[2 * i] == (units[i] % 0x100) as u8
                && le_bytes(units)[2 * i + 1] == (units[i] / 0x100) as u8,
    decreases units.len(),
{
    if units.len() > 0 {
        lemma_le_bytes_index(units.drop_last());
    }
}

/// The units of little-endian byte pairs.
pub open spec fn le_units(bytes: Seq<u8>) -> Seq<u16> {
    Seq::new(bytes.len() / 2, |i: int| (bytes[2 * i] + 0x100 * bytes[2 * i + 1]) as u16)
}

/// Reading the bytes of some units back as units gives the same units.
pub proof fn lemma_le_units_of_bytes(units: Seq<u16>)
    ensures
        le_units(le_bytes(units)) == units,
{
    lemma_le_bytes_index(units);
    assert forall|i: int| 0 <= i < units.len() implies #[trigger] le_units(le_bytes(units))[i]
        == units[i] by {
        let u = units[i];
        assert(le_bytes(units)[2 * i] == (u % 0x100) as u8);
        assert(le_bytes(units)[2 * i + 1] == (u / 0x100) as u8);
        assert((u % 0x100) + 0x100 * (u / 0x100) == u);
    }
    assert(le_units(le_bytes(units)) =~= units);
}

/// The last unit of a character's encoding tells how many units it took: a
/// low surrogate ends a pair, any other unit stands alone.
proof fn lemma_last_unit_of_char(c: char)
    ensures
        (c as int) < 0x10000 ==> utf16_of_char(c).len() == 1 && !(0xDC00 <= utf16_of_char(c).last()
            <= 0xDFFF),
        (c as int) >= 0x10000 ==> utf16_of_char(c).len() == 2 && 0xDC00 <= utf16_of_char(c).last()
            <= 0xDFFF && 0xD800 <= utf16_of_char(c)[0] <= 0xDBFF,
{
}

/// Two characters with the same encoding are the same character.
proof fn lemma_utf16_of_char_injective(a: char, b: char)
    requires
        utf16_of_char(a) == utf16_of_char(b),
    ensures
        a == b,
{
    let va = a as int;
    let vb = b as int;
    if va < 0x10000 {
        assert(utf16_of_char(a)[0] == utf16_of_char(b)[0]);
        if vb >= 0x10000 {
            lemma_last_unit_of_char(b);
            assert(false);
        }
    } else {
        lemma_last_unit_of_char(a);
        lemma_last_unit_of_char(b);
        assert(utf16_of_char(a)[0] == utf16_of_char(b)[0]);
        assert(utf16_of_char(a)[1] == utf16_of_char(b)[1]);
        assert((va - 0x10000) / 0x400 == (vb - 0x10000) / 0x400);
        assert((va - 0x10000) % 0x400 == (vb - 0x10000) % 0x400);
        assert(va - 0x10000 == 0x400 * ((va - 0x10000) / 0x400) + (va - 0x10000) % 0x400);
        assert(vb - 0x10000 == 0x400 * ((vb - 0x10000) / 0x400) + (vb - 0x10000) % 0x400);
    }
    assert(va == vb);
}

/// UTF-16 encoding loses nothing: two strings with the same encoding are the
/// same string.
pub proof fn lemma_utf16_injective(s: Seq<char>, t: Seq<char>)
    requires
        utf16_encode(s) == utf16_encode(t),
    ensures
        s == t,
    decreases s.len(),
{
    lemma_utf16_len(s);
    lemma_utf16_len(t);
    if s.len() == 0 || t.len() == 0 {
        assert(s =~= t);
    } else {
        let e = utf16_encode(s);
        let cs = utf16_of_char(s.last());
        let ct = utf16_of_char(t.last());
        let ps = utf16_encode(s.drop_last());
        let pt = utf16_encode(t.drop_last());
        assert(e == ps + cs);
        assert(e == pt + ct);
        lemma_last_unit_of_char(s.last());
        lemma_last_unit_of_char(t.last());
        assert(e.last() == cs.last());
        assert(e.last() == ct.last());
        assert(cs.len() == ct.len());
        assert(cs =~= e.subrange(e.len() - cs.len(), e.len() as int));
        assert(ct =~= e.subrange(e.len() - ct.len(), e.len() as int));
        assert(ps =~= e.subrange(0, e.len() - cs.len()));
        assert(pt =~= e.subrange(0, e.len() - ct.len()));
        lemma_utf16_of_char_injective(s.last(), t.last());
        lemma_utf16_injective(s.drop_last(), t.drop_last());
        assert(s =~= s.drop_last().push(s.last()));
        assert(t =~= t.drop_last().push(t.last()));
    }
}

fn push_utf16_of_char(out: &mut Vec<u16>, c: char)
    ensures
        final(out)@ == old(out)@ + utf16_of_char(c),
{
    let v = c as u32;
    if v < 0x10000 {
        out.push(v as u16);
    } else {
        assert(v <= 0x10FFFF);
        let u = v - 0x10000;
        out.push((0xD800 + u / 0x400) as u16);
        out.push((0xDC00 + u % 0x400) as u16);
    }
    assert(out@ =~= old(out)@ + utf16_of_char(c));
}

/// The UTF-16 code units of `s` (what `str::encode_utf16` yields).
pub fn encode_utf16(s: &str) -> (r: Vec<u16>)
    ensures
        r@ == utf16_encode(s@),
{
    let n = s.unicode_len();
    let mut out: Vec<u16> = Vec::new();
    let mut i: usize = 0;
    while i < n
        invariant
            n == s@.len(),
            i <= n,
            out@ == utf16_encode(s@.take(i as int)),
        decreases n - i,
    {
        let c = s.get_char(i);
        proof {
            assert(s@.take(i + 1).drop_last() =~= s@.take(i as int));
            assert(s@.take(i + 1).last() == c);
        }
        push_utf16_of_char(&mut out, c);
        i = i + 1;
    }
    assert(s@.take(n as int) =~= s@);
    out
}

/// `units` as little-endian bytes.
pub fn units_to_le_bytes(units: &Vec<u16>) -> (r: Vec<u8>)
    ensures
        r@ == le_bytes(units@),
{
    let mut out: Vec<u8> = Vec::new();
    let mut i: usize = 0;
    while i < units.len()
        invariant
            i <= units@.len(),
            out@ == le_bytes(units@.take(i as int)),
        decreases units@.len() - i,
    {
        let u = units[i];
        proof {
            assert(units@.take(i + 1).drop_last() =~= units@.take(i as int));
        }
        assert(u & 0xff == u % 0x100) by (bit_vector);
        assert(u >> 8 == u / 0x100) by (bit_vector);
        out.push((u & 0xff) as u8);
        out.push((u >> 8) as u8);
        i = i + 1;
    }
    assert(units@.take(units@.len() as int) =~= units@);
    out
}

/// Decodes UTF-16 into a string.
///
/// Calls `String::from_utf16`, which by its documentation decodes `units`
/// and fails if they hold invalid data. Claimed: a string that comes back
/// encodes to exactly `units`; a failure means that no string does.
#[verifier::external_body]
fn string_from_utf16(units: &[u16]) -> (r: Option<String>)
    ensures
        match r {
            Some(s) => utf16_encode(s@) == units@,
            None => forall|t: Seq<char>| #[trigger] utf16_encode(t) != units@,
        },
{
    match String::from_utf16(units) {
        Ok(s) => Some(s),
        Err(_) => None,
    }
}

/// The string held by the first `len` units of a buffer that a Win32 call
/// filled and whose length it returned (a GUID's text, a module's path):
/// `None` where the call reported nothing (`len` is 0) or the units are not
/// valid UTF-16.
pub fn wide_prefix_to_string(buffer: &[u16], len: u32) -> (r: Option<String>)
    requires
        len <= buffer@.len(),
    ensures
        match r {
            Some(s) => len > 0 && utf16_encode(s@) == buffer@.take(len as int),
            None => len == 0 || forall|t: Seq<char>|
                #[trigger] utf16_encode(t) != buffer@.take(len as int),
        },
{
    if len == 0 {
        return None;
    }
    let n = len as usize;
    let mut prefix: Vec<u16> = Vec::new();
    let mut i: usize = 0;
    while i < n
        invariant
            n == len,
            n <= buffer@.len(),
            i <= n,
            prefix@ == buffer@.take(i as int),
        decreases n - i,
    {
        prefix.push(buffer[i]);
        i = i + 1;
        proof {
            assert(prefix@ =~= buffer@.take(i as int));
        }
    }
    string_from_utf16(prefix.as_slice())
}

/// The NUL-terminated UTF-16 form of a string, as units.
pub open spec fn utf16_nul(s: Seq<char>) -> Seq<u16> {
    utf16_encode(s).push(0)
}

/// Conversions of Rust strings to the wide strings that Win32 and COM take.
pub trait WinString {
    /// The characters of the string.
    spec fn chars(&self) -> Seq<char>;

    /// The NUL-terminated UTF-16 string as little-endian bytes, for COM
    /// methods that take the `const BYTE *` of a UTF-16 string.
    fn to_wide_bytes_nul(&self) -> (r: Vec<u8>)
        ensures
            r@ == le_bytes(utf16_nul(self.chars())),
    ;

    /// The NUL-terminated UTF-16 string.
    fn to_utf16_nul(&self) -> (r: Vec<u16>)
        ensures
            r@ == utf16_nul(self.chars()),
    ;
}

fn str_to_utf16_nul(s: &str) -> (r: Vec<u16>)
    ensures
        r@ == utf16_nul(s@),
{
    let mut v = encode_utf16(s);
    v.push(0);
    v
}

fn str_to_wide_bytes_nul(s: &str) -> (r: Vec<u8>)
    ensures
        r@ == le_bytes(utf16_nul(s@)),
{
    let v = str_to_utf16_nul(s);
    units_to_le_bytes(&v)
}

impl<'a> WinString for &'a str {
    open spec fn chars(&self) -> Seq<char> {
        (*self)@
    }

    fn to_wide_bytes_nul(&self) -> (r: Vec<u8>) {
        str_to_wide_bytes_nul(*self)
    }

    fn to_utf16_nul(&self) -> (r: Vec<u16>) {
        str_to_utf16_nul(*self)
    }
}

impl WinString for String {
    open spec fn chars(&self) -> Seq<char> {
        self@
    }

    fn to_wide_bytes_nul(&self) -> (r: Vec<u8>) {
        str_to_wide_bytes_nul(self.as_str())
    }

    fn to_utf16_nul(&self) -> (r: Vec<u16>) {
        str_to_utf16_nul(self.as_str())
    }
}

/// The wide bytes are exactly the little-endian bytes of the UTF-16 units,
/// ending in the two zero bytes of the terminator.
pub proof fn lemma_wide_bytes_nul(s: Seq<char>)
    ensures
        le_bytes(utf16_nul(s)) == le_bytes(utf16_encode(s)) + seq![0u8, 0u8],
        le_bytes(utf16_nul(s)).len() == 2 * utf16_encode(s).len() + 2,
{
    lemma_le_bytes_concat(utf16_encode(s), seq![0u16]);
    assert(utf16_nul(s) =~= utf16_encode(s) + seq![0u16]);
    assert(seq![0u16].drop_last() =~= Seq::<u16>::empty());
    assert(le_bytes(seq![0u16].drop_last()) =~= Seq::<u8>::empty());
    assert(le_bytes(seq![0u16]) =~= seq![0u8, 0u8]);
    lemma_le_bytes_index(utf16_encode(s));
}

} // verus!
