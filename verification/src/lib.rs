//! The portable core of a Win32 windowing binding: the window registry that
//! routes window-procedure callbacks to owned handler objects, the
//! translation of raw messages into semantic events, wide-string
//! preparation, and the parameter records of fonts and resources.
//!
//! Nothing here calls the operating system. Handles are plain integers, and
//! every function that stands before or after a platform call takes and
//! returns plain values.

pub mod ll;
pub mod font;
pub mod wchar;
pub mod resource;
pub mod com;
pub mod window;
pub mod message;
pub mod handler;
pub mod registry;
pub mod gdi;
pub mod dialog;

use vstd::prelude::*;
use crate::ll::types::{BOOL, WPARAM};

verus! {

/// What the message loop does with what it retrieved.
#[derive(Clone, Copy, Debug, PartialEq, Eq, Structural)]
pub enum LoopStep {
    /// The quit message came: the loop ends with this exit code.
    Exit(usize),
    /// A message came: it is translated and dispatched, and the loop goes
    /// on.
    Forward,
}

/// Decides one turn of the message loop. `ret` is what retrieving a message
/// returned, and `wparam` the first parameter of the message retrieved. A
/// return of zero marks the quit message, whose first parameter is the exit
/// code.
pub fn loop_step(ret: BOOL, wparam: WPARAM) -> (r: LoopStep)
    ensures
        ret == 0 ==> r == LoopStep::Exit(wparam),
        ret != 0 ==> r == LoopStep::Forward,
{
    if ret == 0 {
        LoopStep::Exit(wparam)
    } else {
        LoopStep::Forward
    }
}

} // verus!
