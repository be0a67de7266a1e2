//! Message boxes.

use vstd::prelude::*;
use crate::ll::types::{HWND, UINT};
use crate::wchar::{c_u16, ToCU16Str};
use crate::window::Window;

verus! {

/// The parameters of a message box: its owner, its text and its caption as
/// zero-terminated wide strings, and its style.
pub struct MessageBox {
    pub owner: HWND,
    pub text: Vec<u16>,
    pub caption: Vec<u16>,
    pub style: UINT,
}

pub trait DialogUtil {
    /// The window that owns the boxes of this value.
    spec fn owner(&self) -> HWND;

    /// A plain message box, with an OK button, that shows `msg` under the
    /// caption `title`.
    fn message_box(&self, msg: &str, title: &str) -> (r: MessageBox)
        ensures
            r.owner == self.owner(),
            r.text@ == c_u16(msg@),
            r.caption@ == c_u16(title@),
            r.style == 0,
    ;
}

impl DialogUtil for Window {
    open spec fn owner(&self) -> HWND {
        self.wnd
    }

    fn message_box(&self, msg: &str, title: &str) -> (r: MessageBox) {
        let msg_u = msg.to_c_u16();
        let title_u = title.to_c_u16();
        MessageBox { owner: self.wnd, text: msg_u, caption: title_u, style: 0u32 }
    }
}

} // verus!
