//! Window messages: the identifiers that the registry knows, the semantic
//! event that each one stands for, and the encoding of a handler's answer.

use vstd::prelude::*;
use crate::ll::types::{LPARAM, LRESULT, UINT, WPARAM};
use crate::window::Window;

verus! {

pub const WM_CREATE: UINT = 0x0001;

pub const WM_DESTROY: UINT = 0x0002;

pub const WM_SIZE: UINT = 0x0005;

pub const WM_SETFOCUS: UINT = 0x0007;

pub const WM_PAINT: UINT = 0x000F;

pub const WM_ERASEBKGND: UINT = 0x0014;

pub const WM_KEYDOWN: UINT = 0x0100;

pub const WM_KEYUP: UINT = 0x0101;

pub const WM_LBUTTONDOWN: UINT = 0x0201;

pub const WM_LBUTTONUP: UINT = 0x0202;

/// The creation parameters of a window, as the platform passes them with
/// the creation message: the address of its creation record.
#[derive(Clone, Copy, Debug, PartialEq, Eq, Structural)]
pub struct CreateStruct {
    pub address: LPARAM,
}

/// What a message means to a handler.
#[derive(Clone, Copy, Debug, PartialEq, Eq, Structural)]
pub enum Event {
    Create { cs: CreateStruct },
    Destroy,
    Size { width: isize, height: isize },
    SetFocus { prev: Window },
    Paint,
    EraseBackground,
    KeyDown { keycode: u8, flags: u32 },
    KeyUp { keycode: u8, flags: u32 },
    LeftButtonDown { x: isize, y: isize, flags: u32 },
    LeftButtonUp { x: isize, y: isize, flags: u32 },
    /// A message with no meaning of its own, with its identifier and both
    /// parameters as they came.
    Message { message: UINT, wparam: WPARAM, lparam: LPARAM },
}

/// Whether `message` is one of the identifiers that have an event of their
/// own.
pub open spec fn is_known(message: UINT) -> bool {
    message == WM_CREATE || message == WM_DESTROY || message == WM_SIZE || message == WM_SETFOCUS
        || message == WM_PAINT || message == WM_ERASEBKGND || message == WM_KEYDOWN || message
        == WM_KEYUP || message == WM_LBUTTONDOWN || message == WM_LBUTTONUP
}

/// The low-order 16 bits of a parameter, as a number from 0 to 65535.
pub open spec fn low_word(l: LPARAM) -> isize {
    ((l as int) % 0x10000) as isize
}

/// Bits 16 to 31 of a parameter, as a number from 0 to 65535.
pub open spec fn high_word(l: LPARAM) -> isize {
    (((l as int) / 0x10000) % 0x10000) as isize
}

/// The low-order 32 bits of a signed parameter.
pub open spec fn low_dword(l: LPARAM) -> u32 {
    ((l as int) % 0x1_0000_0000) as u32
}

/// The low-order 32 bits of an unsigned parameter.
pub open spec fn low_dword_unsigned(w: WPARAM) -> u32 {
    ((w as int) % 0x1_0000_0000) as u32
}

/// The low-order 8 bits of an unsigned parameter.
pub open spec fn low_byte(w: WPARAM) -> u8 {
    ((w as int) % 0x100) as u8
}

/// The event that a message stands for. Each known identifier has exactly
/// one; every other message stands for itself.
pub open spec fn event_of(message: UINT, wparam: WPARAM, lparam: LPARAM) -> Event {
    if message == WM_CREATE {
        Event::Create { cs: CreateStruct { address: lparam } }
    } else if message == WM_DESTROY {
        Event::Destroy
    } else if message == WM_SIZE {
        Event::Size { width: low_word(lparam), height: high_word(lparam) }
    } else if message == WM_SETFOCUS {
        Event::SetFocus { prev: Window { wnd: wparam } }
    } else if message == WM_PAINT {
        Event::Paint
    } else if message == WM_ERASEBKGND {
        Event::EraseBackground
    } else if message == WM_KEYDOWN {
        Event::KeyDown { keycode: low_byte(wparam), flags: low_dword(lparam) }
    } else if message == WM_KEYUP {
        Event::KeyUp { keycode: low_byte(wparam), flags: low_dword(lparam) }
    } else if message == WM_LBUTTONDOWN {
        Event::LeftButtonDown {
            x: low_word(lparam),
            y: high_word(lparam),
            flags: low_dword_unsigned(wparam),
        }
    } else if message == WM_LBUTTONUP {
        Event::LeftButtonUp {
            x: low_word(lparam),
            y: high_word(lparam),
            flags: low_dword_unsigned(wparam),
        }
    } else {
        Event::Message { message, wparam, lparam }
    }
}

/// Splits a parameter that packs two 16-bit numbers into the low and the
/// high one.
pub fn words(lparam: LPARAM) -> (r: (isize, isize))
    ensures
        r.0 == low_word(lparam),
        r.1 == high_word(lparam),
        0 <= r.0 < 0x10000,
        0 <= r.1 < 0x10000,
{
    let l: u32 = #[verifier::truncate] (lparam as u32);
    let lo: u32 = l & 0xFFFF;
    let hi: u32 = l >> 16;
    assert(((lparam as u32) & 0xFFFF) == (lparam as int) % 0x10000) by (bit_vector);
    assert(((lparam as u32) >> 16) == ((lparam as int) / 0x10000) % 0x10000) by (bit_vector);
    (lo as isize, hi as isize)
}

/// Translates a raw message into the event that it stands for.
pub fn translate(message: UINT, wparam: WPARAM, lparam: LPARAM) -> (e: Event)
    ensures
        e == event_of(message, wparam, lparam),
{
    assert((lparam as u32) == (lparam as int) % 0x1_0000_0000) by (bit_vector);
    assert((wparam as u32) == (wparam as int) % 0x1_0000_0000) by (bit_vector);
    assert((wparam as u8) == (wparam as int) % 0x100) by (bit_vector);
    if message == WM_CREATE {
        Event::Create { cs: CreateStruct { address: lparam } }
    } else if message == WM_DESTROY {
        Event::Destroy
    } else if message == WM_SIZE {
        let (width, height) = words(lparam);
        Event::Size { width, height }
    } else if message == WM_SETFOCUS {
        Event::SetFocus { prev: Window::from_handle(wparam) }
    } else if message == WM_PAINT {
        Event::Paint
    } else if message == WM_ERASEBKGND {
        Event::EraseBackground
    } else if message == WM_KEYDOWN {
        Event::KeyDown {
            keycode: #[verifier::truncate] (wparam as u8),
            flags: #[verifier::truncate] (lparam as u32),
        }
    } else if message == WM_KEYUP {
        Event::KeyUp {
            keycode: #[verifier::truncate] (wparam as u8),
            flags: #[verifier::truncate] (lparam as u32),
        }
    } else if message == WM_LBUTTONDOWN {
        let (x, y) = words(lparam);
        Event::LeftButtonDown { x, y, flags: #[verifier::truncate] (wparam as u32) }
    } else if message == WM_LBUTTONUP {
        let (x, y) = words(lparam);
        Event::LeftButtonUp { x, y, flags: #[verifier::truncate] (wparam as u32) }
    } else {
        Event::Message { message, wparam, lparam }
    }
}

/// Translation sorts the messages into the known and the others: a known
/// identifier never stands for itself, and any other message keeps its
/// identifier and both parameters unchanged.
pub proof fn lemma_translation_total(message: UINT, wparam: WPARAM, lparam: LPARAM)
    ensures
        is_known(message) <==> !(event_of(message, wparam, lparam) is Message),
        !is_known(message) ==> event_of(message, wparam, lparam) == (Event::Message {
            message,
            wparam,
            lparam,
        }),
{
}

/// What a handler's answer comes to: a value to hand back to the platform,
/// the request to let the platform's default procedure answer, or the end
/// of the application.
#[derive(Clone, Copy, Debug, PartialEq, Eq, Structural)]
pub enum Outcome {
    Reply(LRESULT),
    Default,
    /// The application ends with this window: the quit message is to be
    /// posted with the exit code zero, and the answer is zero.
    Quit,
}

/// The answer to the creation message: zero lets creation go on, minus one
/// makes the platform give the window up.
pub open spec fn create_answer(accepted: bool) -> LRESULT {
    if accepted {
        0
    } else {
        -1isize
    }
}

/// The answer that a yes-or-no callback gives: one for yes, zero for no.
pub open spec fn flag_answer(handled: bool) -> LRESULT {
    if handled {
        1
    } else {
        0
    }
}

/// What the destruction callback's answer comes to: the end of the
/// application where it asked for it, else the answer zero.
pub open spec fn destroy_answer(quit: bool) -> Outcome {
    if quit {
        Outcome::Quit
    } else {
        Outcome::Reply(0)
    }
}

/// What the catch-all callback's answer comes to: its value where it gave
/// one, the platform's default procedure where it gave none.
pub open spec fn message_answer(answer: Option<LRESULT>) -> Outcome {
    match answer {
        Some(value) => Outcome::Reply(value),
        None => Outcome::Default,
    }
}

pub fn create_reply(accepted: bool) -> (r: LRESULT)
    ensures
        r == create_answer(accepted),
{
    if accepted {
        0
    } else {
        -1
    }
}

pub fn flag_reply(handled: bool) -> (r: LRESULT)
    ensures
        r == flag_answer(handled),
{
    if handled {
        1
    } else {
        0
    }
}

pub fn destroy_outcome(quit: bool) -> (r: Outcome)
    ensures
        r == destroy_answer(quit),
{
    if quit {
        Outcome::Quit
    } else {
        Outcome::Reply(0)
    }
}

pub fn message_outcome(answer: Option<LRESULT>) -> (r: Outcome)
    ensures
        r == message_answer(answer),
{
    match answer {
        Some(value) => Outcome::Reply(value),
        None => Outcome::Default,
    }
}

} // verus!
