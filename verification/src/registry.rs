//! The window registry: which handler answers for which window.
//!
//! A handler has to exist before its window does, because the platform
//! delivers the window's first messages while the creation call is still
//! running, before the caller has a handle. So a handler is first staged,
//! in a cell that holds at most one. The first message that arrives then
//! binds the staged handler to the window that the message names. From then
//! on every message for that window finds the same handler.

use vstd::prelude::*;
use std::collections::HashMap;
use crate::handler::{answers, may_answer, wnd_proc, WindowImpl};
use crate::ll::types::{HWND, LPARAM, UINT, WPARAM};
use crate::message::{event_of, Outcome};
use crate::window::Window;

verus! {

/// What a registry holds, as a value: the staged handler, if there is one,
/// and the handlers that are bound, by window handle.
pub struct RegistryState<H> {
    pub pending: Option<H>,
    pub bound: Map<HWND, H>,
}

/// One thing that is done to a registry.
pub enum Step<H> {
    Stage(H),
    Dispatch(HWND),
}

impl<H: WindowImpl> RegistryState<H> {
    /// Nothing staged, nothing bound.
    pub open spec fn empty() -> Self {
        RegistryState { pending: None, bound: Map::empty() }
    }

    /// The state after staging `handler`. Where a handler is staged already,
    /// it stays and nothing changes.
    pub open spec fn stage(self, handler: H) -> Self {
        if self.pending is Some {
            self
        } else {
            RegistryState { pending: Some(handler), bound: self.bound }
        }
    }

    /// The state after a message for `wnd` has arrived: the staged handler,
    /// if there is one, is bound to `wnd`, in the place of whatever was bound
    /// to it, and the cell is empty.
    pub open spec fn promote(self, wnd: HWND) -> Self {
        match self.pending {
            Some(handler) => RegistryState {
                pending: None,
                bound: self.bound.insert(wnd, handler.rebound(Window { wnd })),
            },
            None => self,
        }
    }

    /// The handler that is bound to `wnd`.
    pub open spec fn lookup(self, wnd: HWND) -> Option<H> {
        if self.bound.contains_key(wnd) {
            Some(self.bound[wnd])
        } else {
            None
        }
    }

    /// The handler that answers a message for `wnd`: the staged one if there
    /// is one, else the one bound to `wnd`.
    pub open spec fn resolve(self, wnd: HWND) -> Option<H> {
        self.promote(wnd).lookup(wnd)
    }

    /// The state after one step.
    pub open spec fn step(self, step: Step<H>) -> Self {
        match step {
            Step::Stage(handler) => self.stage(handler),
            Step::Dispatch(wnd) => self.promote(wnd),
        }
    }

    /// The state after `steps`, taken in order.
    pub open spec fn run(self, steps: Seq<Step<H>>) -> Self
        decreases steps.len(),
    {
        if steps.len() == 0 {
            self
        } else {
            self.run(steps.drop_last()).step(steps.last())
        }
    }

    /// Whether one of `steps` binds a handler to `wnd`: a message for `wnd`
    /// that arrives while a handler is staged.
    pub open spec fn binds(self, steps: Seq<Step<H>>, wnd: HWND) -> bool {
        exists|i: int|
            0 <= i < steps.len() && #[trigger] steps[i] == Step::<H>::Dispatch(wnd) && self.run(
                steps.take(i),
            ).pending is Some
    }
}

/// The registry of one message loop. It is owned by whoever runs the loop
/// and belongs to the loop's thread.
pub struct Registry<H: WindowImpl> {
    pending: Option<H>,
    windows: HashMap<HWND, H>,
}

impl<H: WindowImpl> View for Registry<H> {
    type V = RegistryState<H>;

    closed spec fn view(&self) -> RegistryState<H> {
        RegistryState { pending: self.pending, bound: self.windows@ }
    }
}

impl<H: WindowImpl> Registry<H> {
    /// Every bound handler answers for the window that it is bound to.
    #[verifier::type_invariant]
    spec fn handlers_know_their_windows(self) -> bool {
        forall|wnd: HWND| #[trigger]
            self.windows@.contains_key(wnd) ==> self.windows@[wnd].window() == (Window { wnd })
    }

    /// A registry with nothing staged and nothing bound.
    pub fn new() -> (r: Self)
        ensures
            r@ == RegistryState::<H>::empty(),
    {
        Registry { pending: None, windows: HashMap::new() }
    }

    /// Stages `handler` for the window that is created next. A second
    /// handler is not taken while the first still waits for its window: it
    /// comes back as the error, and the registry stays as it was.
    pub fn stage(&mut self, handler: H) -> (r: Result<(), H>)
        ensures
            final(self)@ == old(self)@.stage(handler),
            old(self)@.pending is Some ==> r == Err::<(), H>(handler),
            old(self)@.pending is None ==> r == Ok::<(), H>(()),
    {
        if self.pending.is_some() {
            Err(handler)
        } else {
            proof {
                use_type_invariant(&*self);
            }
            self.pending = Some(handler);
            Ok(())
        }
    }

    /// Takes the staged handler back, for a window that was never created.
    pub fn unstage(&mut self) -> (r: Option<H>)
        ensures
            r == old(self)@.pending,
            final(self)@.pending is None,
            final(self)@.bound == old(self)@.bound,
    {
        // The registry is taken apart and put together again, so that the
        // invariant holds of every value of the type.
        let mut taken = Registry::new();
        core::mem::swap(self, &mut taken);
        proof {
            use_type_invariant(&taken);
        }
        let Registry { pending, windows } = taken;
        *self = Registry { pending: None, windows };
        pending
    }

    /// Writes `win` into `handler` and binds it to `win`, in the place of
    /// whatever was bound to it.
    fn associate_window_impl(&mut self, win: Window, handler: H)
        ensures
            final(self)@.pending == old(self)@.pending,
            final(self)@.bound == old(self)@.bound.insert(win.wnd, handler.rebound(win)),
    {
        broadcast use vstd::std_specs::hash::group_hash_axioms;

        let mut handler = handler;
        let w = handler.wnd_mut();
        w.wnd = win.wnd;
        let mut taken = Registry::new();
        core::mem::swap(self, &mut taken);
        proof {
            use_type_invariant(&taken);
        }
        let Registry { pending, mut windows } = taken;
        windows.insert(win.wnd, handler);
        *self = Registry { pending, windows };
    }

    /// Binds the staged handler, if there is one, to `win`, and writes `win`
    /// into it.
    pub fn promote(&mut self, win: Window)
        ensures
            final(self)@ == old(self)@.promote(win.wnd),
    {
        match self.unstage() {
            Some(handler) => {
                self.associate_window_impl(win, handler);
            },
            None => {},
        }
    }

    /// The handler that is bound to `wnd`. It answers for `wnd`.
    pub fn lookup(&self, wnd: HWND) -> (r: Option<&H>)
        ensures
            match r {
                Some(handler) => self@.lookup(wnd) == Some(*handler) && handler.window() == (Window {
                    wnd,
                }),
                None => self@.lookup(wnd) is None,
            },
    {
        broadcast use vstd::std_specs::hash::group_hash_axioms;

        proof {
            use_type_invariant(self);
        }
        self.windows.get(&wnd)
    }

    /// Whether a message for `wnd` finds a handler: one is staged, or one is
    /// bound to `wnd`.
    pub fn knows(&self, wnd: HWND) -> (b: bool)
        ensures
            b == (self@.resolve(wnd) is Some),
    {
        broadcast use vstd::std_specs::hash::group_hash_axioms;

        self.pending.is_some() || self.windows.contains_key(&wnd)
    }

    /// Routes one message to the handler of its window and returns what the
    /// handler's answer comes to.
    ///
    /// A staged handler is first bound to `wnd`. The message then goes to
    /// the handler that is bound to `wnd`, to the callback that its event
    /// belongs to.
    ///
    /// A message for a window that has no handler is an error of whoever
    /// creates the windows, and there is no answer to it: the registry must
    /// know the window. `knows` tells.
    pub fn dispatch(&mut self, wnd: HWND, msg: UINT, w: WPARAM, l: LPARAM) -> (r: Outcome)
        requires
            old(self)@.resolve(wnd) is Some,
        ensures
            final(self)@ == old(self)@.promote(wnd),
            answers(&old(self)@.resolve(wnd)->0, event_of(msg, w, l), r),
            may_answer(event_of(msg, w, l), r),
    {
        self.promote(Window::from_handle(wnd));
        let handler = self.lookup(wnd).unwrap();
        wnd_proc(handler, msg, w, l)
    }
}

/// The handler that the first message binds is the one that every later
/// message for the same window finds, and the first message is the only one
/// that changes the registry. Where nothing was staged before, that handler
/// is the staged one, answering for the window.
pub proof fn lemma_identity_preserved<H: WindowImpl>(s: RegistryState<H>, handler: H, wnd: HWND)
    ensures
        s.stage(handler).resolve(wnd) is Some,
        s.stage(handler).promote(wnd).resolve(wnd) == s.stage(handler).resolve(wnd),
        s.stage(handler).promote(wnd).promote(wnd) == s.stage(handler).promote(wnd),
        s.pending is None ==> s.stage(handler).resolve(wnd) == Some(
            handler.rebound(Window { wnd }),
        ),
{
}

/// A window has no handler exactly when none is staged and none is bound to
/// it; such a window is what `dispatch` does not take. With nothing staged,
/// a message resolves to what is bound to its window and to nothing else,
/// and leaves the registry as it was.
pub proof fn lemma_unknown_window<H: WindowImpl>(s: RegistryState<H>, wnd: HWND)
    ensures
        s.resolve(wnd) is None <==> s.pending is None && !s.bound.contains_key(wnd),
        s.pending is None ==> s.resolve(wnd) == s.lookup(wnd) && s.promote(wnd) == s,
        RegistryState::<H>::empty().resolve(wnd) is None,
{
}

/// Staging twice keeps the first handler: the second call changes nothing.
pub proof fn lemma_second_stage_rejected<H: WindowImpl>(s: RegistryState<H>, first: H, second: H)
    ensures
        s.stage(first).stage(second) == s.stage(first),
        s.pending is None ==> s.stage(first).stage(second).pending == Some(first),
{
}

/// A prefix of steps that binds a handler to a window is part of every
/// longer run.
proof fn lemma_binds_prefix<H: WindowImpl>(s: RegistryState<H>, steps: Seq<Step<H>>, wnd: HWND)
    requires
        steps.len() > 0,
        s.binds(steps.drop_last(), wnd),
    ensures
        s.binds(steps, wnd),
{
    let pre = steps.drop_last();
    let i = choose|i: int|
        0 <= i < pre.len() && #[trigger] pre[i] == Step::<H>::Dispatch(wnd) && s.run(
            pre.take(i),
        ).pending is Some;
    assert(steps.take(i) =~= pre.take(i));
    assert(steps[i] == Step::<H>::Dispatch(wnd));
}

/// No cross-talk: whatever is staged and dispatched, in any number and any
/// order, the handler of a window stays the same as long as no handler is
/// bound to that very window again.
pub proof fn lemma_no_cross_talk<H: WindowImpl>(s: RegistryState<H>, steps: Seq<Step<H>>, wnd: HWND)
    requires
        !s.binds(steps, wnd),
    ensures
        s.run(steps).lookup(wnd) == s.lookup(wnd),
    decreases steps.len(),
{
    if steps.len() > 0 {
        let pre = steps.drop_last();
        if s.binds(pre, wnd) {
            lemma_binds_prefix(s, steps, wnd);
        }
        lemma_no_cross_talk(s, pre, wnd);
        match steps.last() {
            Step::Stage(_) => {},
            Step::Dispatch(other) => {
                if s.run(pre).pending is Some && other == wnd {
                    let i = steps.len() - 1;
                    assert(steps.take(i) =~= pre);
                    assert(steps[i] == Step::<H>::Dispatch(wnd));
                }
            },
        }
    }
}

/// Any number of messages, for any windows, leave a registry with nothing
/// staged exactly as it was.
pub proof fn lemma_dispatch_keeps_bindings<H: WindowImpl>(s: RegistryState<H>, wnds: Seq<HWND>)
    requires
        s.pending is None,
    ensures
        s.run(wnds.map_values(|wnd: HWND| Step::<H>::Dispatch(wnd))) == s,
    decreases wnds.len(),
{
    let steps = wnds.map_values(|wnd: HWND| Step::<H>::Dispatch(wnd));
    if wnds.len() > 0 {
        lemma_dispatch_keeps_bindings(s, wnds.drop_last());
        assert(steps.drop_last() =~= wnds.drop_last().map_values(
            |wnd: HWND| Step::<H>::Dispatch(wnd),
        ));
    }
}

} // verus!
