//! What a window handler is: the callbacks that it answers events with, and
//! the delivery of an event to the callback that it belongs to.

use vstd::prelude::*;
use crate::ll::types::{LPARAM, LRESULT, UINT, WPARAM};
use crate::message::{
    create_answer, create_reply, destroy_answer, destroy_outcome, event_of, flag_answer,
    flag_reply, message_answer, message_outcome, translate, CreateStruct, Event, Outcome,
};
use crate::window::Window;

verus! {

pub trait OnCreate {
    /// Answers the creation of the window: `true` accepts it, `false` makes
    /// the platform give the window up. A handler that does not say
    /// otherwise accepts.
    fn on_create(&self, _cs: &CreateStruct) -> (accepted: bool)
        default_ensures
            accepted,
    {
        true
    }
}

pub trait OnDestroy {
    /// Called when the window is being destroyed. Returns whether the
    /// application ends with this window. A handler that does not say
    /// otherwise ends it.
    fn on_destroy(&self) -> (quit: bool)
        default_ensures
            quit,
    {
        true
    }
}

pub trait OnPaint {
    fn on_paint(&self) {
    }
}

pub trait OnSize {
    fn on_size(&self, _width: isize, _height: isize) {
    }
}

pub trait OnSetFocus {
    /// Called when the window has gained the keyboard focus; `_prev` is the
    /// window that lost it.
    fn on_set_focus(&self, _prev: Window) {
    }
}

pub trait OnLeftButtonDown {
    fn on_left_button_down(&self, _x: isize, _y: isize, _flags: u32) {
    }
}

pub trait OnLeftButtonUp {
    fn on_left_button_up(&self, _x: isize, _y: isize, _flags: u32) {
    }
}

pub trait OnKeyDown {
    /// Answers a key that went down: `true` where the handler dealt with
    /// it. A handler that does not say otherwise has not.
    fn on_key_down(&self, _keycode: u8, _flags: u32) -> (handled: bool)
        default_ensures
            !handled,
    {
        false
    }
}

pub trait OnKeyUp {
    /// Answers a key that came up: `true` where the handler dealt with it.
    /// A handler that does not say otherwise has not.
    fn on_key_up(&self, _keycode: u8, _flags: u32) -> (handled: bool)
        default_ensures
            !handled,
    {
        false
    }
}

pub trait OnEraseBackground {
    /// return true iff background does not need erasing. A handler that
    /// does not say otherwise leaves the erasing to be done.
    fn on_erase_background(&self) -> (erased: bool)
        default_ensures
            !erased,
    {
        false
    }
}

pub trait OnMessage {
    /// Answers a message that has no callback of its own. `None` leaves the
    /// answer to the platform's default procedure, and that is what a
    /// handler that does not say otherwise gives.
    fn on_message(&self, _message: UINT, _wparam: WPARAM, _lparam: LPARAM) -> (answer: Option<
        LRESULT,
    >)
        default_ensures
            answer is None,
    {
        None
    }
}

/// A window handler: an object that owns the state of one window and
/// answers its events.
///
/// The handler holds the `Window` that it answers for. It is made before its
/// window exists, and the registry writes the window into it, through
/// `wnd_mut`, when the window's first message arrives.
pub trait WindowImpl: Sized + OnCreate + OnDestroy + OnPaint + OnSize + OnSetFocus
    + OnLeftButtonDown + OnLeftButtonUp + OnKeyDown + OnKeyUp + OnEraseBackground + OnMessage {
    /// The window that the handler answers for. A handler type that is
    /// verified says which of its fields that is; one that is not leaves
    /// it unsaid.
    open spec fn window(&self) -> Window {
        arbitrary()
    }

    /// This handler, answering for `wnd` and otherwise unchanged. As with
    /// `window`, a handler type that is verified says what that is.
    open spec fn rebound(&self, wnd: Window) -> Self {
        arbitrary()
    }

    /// The window that the handler answers for.
    fn wnd(&self) -> (w: &Window)
        ensures
            *w == self.window(),
    ;

    /// Hands out the handler's window. Whatever is written through the
    /// reference becomes the window that the handler answers for, and
    /// nothing else of the handler changes.
    fn wnd_mut(&mut self) -> (w: &mut Window)
        ensures
            *w == old(self).window(),
            *final(self) == old(self).rebound(*final(w)),
            final(self).window() == *final(w),
    ;
}

/// Whether `outcome` is what `handler` answers `event` with: the event went
/// to the callback that it belongs to, with its own fields, and `outcome` is
/// what the callback's answer comes to.
pub open spec fn answers<H: WindowImpl>(handler: &H, event: Event, outcome: Outcome) -> bool {
    match event {
        Event::Create { cs } => exists|accepted: bool| #[trigger]
            call_ensures(H::on_create, (handler, &cs), accepted) && outcome == Outcome::Reply(
                create_answer(accepted),
            ),
        Event::Destroy => exists|quit: bool| #[trigger]
            call_ensures(H::on_destroy, (handler,), quit) && outcome == destroy_answer(quit),
        Event::Size { width, height } => call_ensures(H::on_size, (handler, width, height), ())
            && outcome == Outcome::Reply(0),
        Event::SetFocus { prev } => call_ensures(H::on_set_focus, (handler, prev), ()) && outcome
            == Outcome::Reply(0),
        Event::Paint => call_ensures(H::on_paint, (handler,), ()) && outcome == Outcome::Reply(0),
        Event::EraseBackground => exists|erased: bool| #[trigger]
            call_ensures(H::on_erase_background, (handler,), erased) && outcome == Outcome::Reply(
                flag_answer(erased),
            ),
        Event::KeyDown { keycode, flags } => exists|handled: bool| #[trigger]
            call_ensures(H::on_key_down, (handler, keycode, flags), handled) && outcome
                == Outcome::Reply(flag_answer(handled)),
        Event::KeyUp { keycode, flags } => exists|handled: bool| #[trigger]
            call_ensures(H::on_key_up, (handler, keycode, flags), handled) && outcome
                == Outcome::Reply(flag_answer(handled)),
        Event::LeftButtonDown { x, y, flags } => call_ensures(
            H::on_left_button_down,
            (handler, x, y, flags),
            (),
        ) && outcome == Outcome::Reply(0),
        Event::LeftButtonUp { x, y, flags } => call_ensures(
            H::on_left_button_up,
            (handler, x, y, flags),
            (),
        ) && outcome == Outcome::Reply(0),
        Event::Message { message, wparam, lparam } => exists|answer: Option<LRESULT>| #[trigger]
            call_ensures(H::on_message, (handler, message, wparam, lparam), answer) && outcome
                == message_answer(answer),
    }
}

/// Whether `outcome` is an answer that `event` can have, whatever the
/// handler. The events with a callback of their own are always answered
/// with a value: zero where the callback returns nothing, zero or minus one
/// for creation, zero or one for a yes-or-no callback; destruction may also
/// end the application. A message without a meaning of its own has any
/// value that the catch-all callback chose, or the platform's default.
pub open spec fn may_answer(event: Event, outcome: Outcome) -> bool {
    match event {
        Event::Create { .. } => outcome == Outcome::Reply(0) || outcome == Outcome::Reply(-1isize),
        Event::Destroy => outcome == Outcome::Reply(0) || outcome == Outcome::Quit,
        Event::Size { .. }
        | Event::SetFocus { .. }
        | Event::Paint
        | Event::LeftButtonDown { .. }
        | Event::LeftButtonUp { .. } => outcome == Outcome::Reply(0),
        Event::EraseBackground | Event::KeyDown { .. } | Event::KeyUp { .. } => outcome
            == Outcome::Reply(0) || outcome == Outcome::Reply(1),
        Event::Message { .. } => outcome is Reply || outcome is Default,
    }
}

/// Delivers an event to the callback that it belongs to, and encodes the
/// callback's answer.
pub fn deliver<H: WindowImpl>(handler: &H, event: Event) -> (r: Outcome)
    ensures
        answers(handler, event, r),
        may_answer(event, r),
{
    match event {
        Event::Create { cs } => Outcome::Reply(create_reply(handler.on_create(&cs))),
        Event::Destroy => destroy_outcome(handler.on_destroy()),
        Event::Size { width, height } => {
            handler.on_size(width, height);
            Outcome::Reply(0)
        },
        Event::SetFocus { prev } => {
            handler.on_set_focus(prev);
            Outcome::Reply(0)
        },
        Event::Paint => {
            handler.on_paint();
            Outcome::Reply(0)
        },
        Event::EraseBackground => Outcome::Reply(flag_reply(handler.on_erase_background())),
        Event::KeyDown { keycode, flags } => Outcome::Reply(
            flag_reply(handler.on_key_down(keycode, flags)),
        ),
        Event::KeyUp { keycode, flags } => Outcome::Reply(
            flag_reply(handler.on_key_up(keycode, flags)),
        ),
        Event::LeftButtonDown { x, y, flags } => {
            handler.on_left_button_down(x, y, flags);
            Outcome::Reply(0)
        },
        Event::LeftButtonUp { x, y, flags } => {
            handler.on_left_button_up(x, y, flags);
            Outcome::Reply(0)
        },
        Event::Message { message, wparam, lparam } => message_outcome(
            handler.on_message(message, wparam, lparam),
        ),
    }
}

/// The window procedure of one handler: translates the message and delivers
/// the event.
pub fn wnd_proc<H: WindowImpl>(handler: &H, msg: UINT, w: WPARAM, l: LPARAM) -> (r: Outcome)
    ensures
        answers(handler, event_of(msg, w, l), r),
        may_answer(event_of(msg, w, l), r),
{
    deliver(handler, translate(msg, w, l))
}

} // verus!
