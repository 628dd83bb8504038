use vstd::prelude::*;

use crate::win::encode_utf16;
use crate::win::utf16_nul;

verus! {

/// A NUL-terminated UTF-16 string kept alive for a Win32 call; the empty
/// string is passed as a null pointer.
#[derive(Debug)]
pub struct Pcwstr {
    container: Vec<u16>,
}

impl Pcwstr {
    /// The units passed to Windows, terminator included (none for null).
    pub closed spec fn units(&self) -> Seq<u16> {
        self.container@
    }

    /// Whether the string is passed as a null pointer.
    pub fn is_null(&self) -> (r: bool)
        ensures
            r == (self.units().len() == 0),
    {
        self.container.len() == 0
    }

    /// The units passed to Windows, terminator included (empty for null).
    pub fn as_wide(&self) -> (r: &[u16])
        ensures
            r@ == self.units(),
    {
        self.container.as_slice()
    }
}

/// The units of a string as Windows takes it: nothing (a null pointer) for
/// the empty string, the NUL-terminated UTF-16 form otherwise.
pub open spec fn spec_pcwstr(s: Seq<char>) -> Seq<u16> {
    if s.len() == 0 {
        seq![]
    } else {
        utf16_nul(s)
    }
}

fn str_to_pcwstr(s: &str) -> (r: Pcwstr)
    ensures
        r.units() == spec_pcwstr(s@),
{
    let mut text = encode_utf16(s);
    if text.len() == 0 {
        proof {
            if s@.len() > 0 {
                crate::win::lemma_utf16_len(s@);
            }
        }
        return Pcwstr { container: Vec::new() };
    }
    text.push(0);
    proof {
        crate::win::lemma_utf16_len(s@);
    }
    Pcwstr { container: text }
}

/// Conversion of Rust strings to the wide strings Win32 takes.
pub trait ToPcwstr {
    spec fn text(&self) -> Seq<char>;

    fn to_pcwstr(&self) -> (r: Pcwstr)
        ensures
            r.units() == spec_pcwstr(self.text()),
    ;
}

impl<'a> ToPcwstr for &'a str {
    open spec fn text(&self) -> Seq<char> {
        (*self)@
    }

    fn to_pcwstr(&self) -> (r: Pcwstr) {
        str_to_pcwstr(*self)
    }
}

impl ToPcwstr for String {
    open spec fn text(&self) -> Seq<char> {
        self@
    }

    fn to_pcwstr(&self) -> (r: Pcwstr) {
        str_to_pcwstr(self.as_str())
    }
}

} // verus!
