//! Integer types of the platform's calling convention.
//!
//! Handles are opaque identifiers that the platform assigns; they are kept
//! as pointer-sized integers and are never dereferenced.

use vstd::prelude::*;

verus! {

#[allow(non_camel_case_types)]
pub type c_int = i32;

pub type BOOL = i32;

pub type LONG = i32;

pub type UINT = u32;

pub type DWORD = u32;

pub type HRESULT = i32;

pub type ATOM = u16;

pub type WPARAM = usize;

pub type LPARAM = isize;

pub type LRESULT = isize;

pub type HANDLE = usize;

pub type HWND = HANDLE;

pub type HFONT = HANDLE;

pub type HDC = HANDLE;

pub type HMENU = HANDLE;

pub type HBRUSH = HANDLE;

pub type HINSTANCE = HANDLE;

/// A rectangle, by the coordinates of its edges.
#[derive(Clone, Copy, Debug, PartialEq, Eq, Structural)]
pub struct RECT {
    pub left: LONG,
    pub top: LONG,
    pub right: LONG,
    pub bottom: LONG,
}

/// The handle value that stands for "no object".
pub const NULL_HANDLE: HANDLE = 0;

} // verus!
