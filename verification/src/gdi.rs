//! Device contexts, and the preparation of text for drawing.

use vstd::prelude::*;
use crate::ll::types::{c_int, HDC, NULL_HANDLE};
use crate::wchar::{c_u16, encode_utf16, utf16};

verus! {

/// A device context, by its handle.
#[derive(Clone, Copy, Debug, PartialEq, Eq, Structural)]
pub struct Dc {
    pub raw: HDC,
}

impl Dc {
    pub fn raw(&self) -> (h: HDC)
        ensures
            h == self.raw,
    {
        self.raw
    }

    /// The device context that the platform handed back: none where it
    /// answered with the null handle.
    pub fn created(raw: HDC) -> (r: Option<Dc>)
        ensures
            raw == NULL_HANDLE ==> r is None,
            raw != NULL_HANDLE ==> r == Some((Dc { raw })),
    {
        if raw == NULL_HANDLE {
            None
        } else {
            Some(Dc { raw })
        }
    }
}

/// A text laid out for drawing: its code units, a terminating zero, and the
/// number of code units without the terminator, cut to the platform's
/// 32-bit integer.
pub struct TextOut {
    pub units: Vec<u16>,
    pub count: c_int,
}

/// Lays `s` out for drawing.
pub fn text_out(s: &str) -> (t: TextOut)
    ensures
        t.units@ == c_u16(s@),
        t.count == utf16(s@).len() as c_int,
{
    let mut s16 = encode_utf16(s);
    let len = s16.len();
    s16.push(0u16);
    TextOut { units: s16, count: #[verifier::truncate] (len as c_int) }
}

} // verus!
