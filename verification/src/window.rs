//! Window handles, window styles, and the reading of what the platform
//! answers to window calls.

use vstd::prelude::*;
use crate::ll::types::{c_int, ATOM, BOOL, HANDLE, HBRUSH, HWND, NULL_HANDLE, RECT, UINT};
use crate::resource::{Image, MenuPointer, MenuResource, ToHandle};
use crate::wchar::{c_u16, from_utf16_lossy, until_nul, utf16_lossy, CU16String, ToCU16Str};

verus! {

pub const WS_BORDER: u32 = 0x800000;

pub const WS_CAPTION: u32 = 0xc00000;

pub const WS_CHILD: u32 = 0x40000000;

pub const WS_CHILDWINDOW: u32 = 0x40000000;

pub const WS_CLIPCHILDREN: u32 = 0x2000000;

pub const WS_CLIPSIBLINGS: u32 = 0x4000000;

pub const WS_DISABLED: u32 = 0x8000000;

pub const WS_DLGFRAME: u32 = 0x400000;

pub const WS_GROUP: u32 = 0x20000;

pub const WS_HSCROLL: u32 = 0x100000;

pub const WS_ICONIC: u32 = 0x20000000;

pub const WS_MAXIMIZE: u32 = 0x1000000;

pub const WS_MAXIMIZEBOX: u32 = 0x10000;

pub const WS_MINIMIZE: u32 = 0x20000000;

pub const WS_MINIMIZEBOX: u32 = 0x20000;

pub const WS_OVERLAPPED: u32 = 0;

pub const WS_OVERLAPPEDWINDOW: u32 = 0xcf0000;

pub const WS_POPUP: u32 = 0x80000000;

pub const WS_POPUPWINDOW: u32 = 0x80880000;

pub const WS_SIZEBOX: u32 = 0x40000;

pub const WS_SYSMENU: u32 = 0x80000;

pub const WS_TABSTOP: u32 = 0x10000;

pub const WS_THICKFRAME: u32 = 0x40000;

pub const WS_TILED: u32 = 0;

pub const WS_TILEDWINDOW: u32 = 0xcf0000;

pub const WS_VISIBLE: u32 = 0x10000000;

pub const WS_VSCROLL: u32 = 0x200000;

pub const ES_AUTOHSCROLL: u32 = 128;

pub const ES_AUTOVSCROLL: u32 = 64;

pub const ES_CENTER: u32 = 1;

pub const ES_LEFT: u32 = 0;

pub const ES_LOWERCASE: u32 = 16;

pub const ES_MULTILINE: u32 = 4;

pub const ES_NOHIDESEL: u32 = 256;

pub const ES_NUMBER: u32 = 0x2000;

pub const ES_OEMCONVERT: u32 = 0x400;

pub const ES_PASSWORD: u32 = 32;

pub const ES_READONLY: u32 = 0x800;

pub const ES_RIGHT: u32 = 2;

pub const ES_UPPERCASE: u32 = 8;

pub const ES_WANTRETURN: u32 = 4096;

/// A window, by its handle. The handle is an identifier that the platform
/// assigns: two windows are the same where their handles are equal.
#[derive(Clone, Copy, Debug, PartialEq, Eq, Structural, Hash)]
pub struct Window {
    pub wnd: HWND,
}

impl Window {
    /// No window.
    pub fn null() -> (w: Window)
        ensures
            w.wnd == NULL_HANDLE,
    {
        Window { wnd: NULL_HANDLE }
    }

    /// The window that `handle` names.
    pub fn from_handle(handle: HWND) -> (w: Window)
        ensures
            w.wnd == handle,
    {
        Window { wnd: handle }
    }

    /// The window that creation handed back: none where the platform
    /// answered with the null handle.
    pub fn created(wnd: HWND) -> (r: Option<Window>)
        ensures
            wnd == NULL_HANDLE ==> r is None,
            wnd != NULL_HANDLE ==> r == Some((Window { wnd })),
    {
        if wnd != NULL_HANDLE {
            Some(Window { wnd })
        } else {
            None
        }
    }
}

/// The text that a window's title buffer holds, as far as it can be trusted:
/// the text before the first zero unit of `buf`.
pub open spec fn text_read(len: c_int, read: c_int, buf: Seq<u16>) -> Seq<char> {
    if read == len && buf.contains(0u16) {
        utf16_lossy(until_nul(buf))
    } else {
        Seq::empty()
    }
}

/// Reads a window's text out of the buffer that the platform filled. `len`
/// is the length that the platform announced and `read` the number of units
/// that it then wrote; where the two differ the text changed in between and
/// the answer is the empty string, as it is where no zero unit ends the
/// buffer.
pub fn window_text(len: c_int, read: c_int, buf: &[u16]) -> (r: String)
    ensures
        r@ == text_read(len, read, buf@),
{
    if read == len {
        match CU16String::new(buf) {
            None => String::new(),
            Some(s) => from_utf16_lossy(s.as_u16_vec()),
        }
    } else {
        String::new()
    }
}

/// The client rectangle that the platform filled in: none where the call's
/// status was zero.
pub fn client_rect(status: BOOL, rect: RECT) -> (r: Option<RECT>)
    ensures
        status == 0 ==> r is None,
        status != 0 ==> r == Some(rect),
{
    if status != 0 {
        Some(rect)
    } else {
        None
    }
}

/// A window class, as an application describes it.
pub struct WndClass {
    pub classname: String,
    pub style: usize,
    pub icon: Option<Image>,
    pub icon_small: Option<Image>,
    pub cursor: Option<Image>,
    pub background: HBRUSH,
    pub menu: MenuResource,
    pub cls_extra: isize,
    pub wnd_extra: isize,
}

/// The parameters of the registration of a window class, in the integer
/// types in which the platform takes them.
pub struct WndClassParams {
    pub style: UINT,
    pub cls_extra: c_int,
    pub wnd_extra: c_int,
    pub icon: HANDLE,
    pub cursor: HANDLE,
    pub icon_small: HANDLE,
    pub background: HBRUSH,
    pub menu: MenuPointer,
    /// The class name as a zero-terminated wide string.
    pub class_name: Vec<u16>,
}

impl WndClass {
    /// Lays the class out as the parameters of its registration. The style
    /// and the extra sizes are cut to the platform's 32-bit integers; an
    /// absent image has the null handle.
    pub fn params(&self) -> (p: WndClassParams)
        ensures
            p.style == self.style as UINT,
            p.cls_extra == self.cls_extra as c_int,
            p.wnd_extra == self.wnd_extra as c_int,
            p.icon == self.icon.handle(),
            p.cursor == self.cursor.handle(),
            p.icon_small == self.icon_small.handle(),
            p.background == self.background,
            self.menu.points_to(p.menu),
            p.class_name@ == c_u16(self.classname@),
    {
        WndClassParams {
            style: #[verifier::truncate] (self.style as UINT),
            cls_extra: #[verifier::truncate] (self.cls_extra as c_int),
            wnd_extra: #[verifier::truncate] (self.wnd_extra as c_int),
            icon: self.icon.to_handle(),
            cursor: self.cursor.to_handle(),
            icon_small: self.icon_small.to_handle(),
            background: self.background,
            menu: self.menu.menu_pointer(),
            class_name: self.classname.to_c_u16(),
        }
    }

    /// Whether registration took place: the platform answers with a class
    /// atom, and with zero where it failed.
    pub fn registered(atom: ATOM) -> (r: bool)
        ensures
            r == (atom != 0),
    {
        atom != 0
    }
}

} // verus!
