//! The window registry: the loop thread's single source of truth for which
//! window identifiers are valid and what the bridge knows of each window.
//!
//! Identifiers are issued arena-style: a new window takes the next slot and
//! a closed window's slot is emptied but never reassigned, so an identifier
//! can never come back to life and can never collide with a later one.

use vstd::prelude::*;
use crate::envelope::{WindowId, WindowOptions};

verus! {

/// The properties of one window that the bridge tracks but never needs to
/// read back out of a native handle.
#[verifier::ext_equal]
pub struct WindowProps {
    pub title: Seq<char>,
    pub visible: bool,
    pub resizable: bool,
    pub minimized: bool,
    pub always_on_top: bool,
    pub ignore_cursor_events: bool,
    pub frameless: bool,
    pub devtools_open: bool,
}

/// Everything the bridge knows of one window, as one abstract record.
#[verifier::ext_equal]
pub struct WindowModel {
    pub width: u32,
    pub height: u32,
    pub props: WindowProps,
}

/// One registry entry. The host can ask for a window's size back, so the
/// size is stored for real; every other property is only tracked in ghost
/// for the contracts.
#[derive(Clone, Copy)]
pub struct WindowState {
    pub width: u32,
    pub height: u32,
    pub props: Ghost<WindowProps>,
}

impl View for WindowState {
    type V = WindowModel;

    open spec fn view(&self) -> WindowModel {
        WindowModel { width: self.width, height: self.height, props: self.props@ }
    }
}

/// The properties of a window just built from its creation options.
pub open spec fn initial_props(opts: WindowOptions) -> WindowProps {
    WindowProps {
        title: opts.title@,
        visible: opts.visible,
        resizable: opts.resizable,
        minimized: false,
        always_on_top: false,
        ignore_cursor_events: false,
        frameless: opts.frameless,
        devtools_open: false,
    }
}

/// The model of a window just built from its creation options.
pub open spec fn initial_model(opts: WindowOptions) -> WindowModel {
    WindowModel { width: opts.width, height: opts.height, props: initial_props(opts) }
}

/// The registry proper: one slot per identifier ever issued, `None` once
/// the window is closed.
pub struct Registry {
    slots: Vec<Option<WindowState>>,
}

impl View for Registry {
    type V = Seq<Option<WindowModel>>;

    closed spec fn view(&self) -> Seq<Option<WindowModel>> {
        self.slots@.map(|i: int, s: Option<WindowState>| match s {
            Some(st) => Some(st@),
            None => None,
        })
    }
}

impl Registry {
    /// Whether `id` was ever issued by this registry.
    pub open spec fn spec_issued(self, id: WindowId) -> bool {
        id.raw < self@.len()
    }

    /// Whether `id` names a window that is currently open.
    pub open spec fn spec_live(self, id: WindowId) -> bool {
        self.spec_issued(id) && self@[id.raw as int] is Some
    }

    /// The model of the window named by `id`.
    pub open spec fn spec_state(self, id: WindowId) -> WindowModel {
        self@[id.raw as int].unwrap()
    }

    /// An empty registry: nothing issued yet.
    pub fn new() -> (r: Registry)
        ensures
            r@ == Seq::<Option<WindowModel>>::empty(),
    {
        let r = Registry { slots: Vec::new() };
        proof {
            assert(r@ =~= Seq::<Option<WindowModel>>::empty());
        }
        r
    }

    /// Register a window built from `opts`. The identifier handed back has
    /// never been issued before and is live from now until the window is
    /// removed.
    pub fn create(&mut self, opts: &WindowOptions) -> (id: WindowId)
        ensures
            id.raw == old(self)@.len(),
            final(self)@ == old(self)@.push(Some(initial_model(*opts))),
    {
        let id = WindowId { raw: self.slots.len() };
        let state = WindowState {
            width: opts.width,
            height: opts.height,
            props: Ghost(initial_props(*opts)),
        };
        self.slots.push(Some(state));
        proof {
            assert(self@ =~= old(self)@.push(Some(initial_model(*opts))));
        }
        id
    }

    /// Look a window up; `None` exactly when `id` is unknown or closed.
    pub fn get(&self, id: WindowId) -> (r: Option<WindowState>)
        ensures
            match r {
                Some(st) => self.spec_live(id) && st@ == self.spec_state(id),
                None => !self.spec_live(id),
            },
    {
        if id.raw < self.slots.len() {
            self.slots[id.raw]
        } else {
            None
        }
    }

    /// Replace the state of a live window.
    pub fn put(&mut self, id: WindowId, st: WindowState)
        requires
            old(self).spec_live(id),
        ensures
            final(self)@ == old(self)@.update(id.raw as int, Some(st@)),
    {
        self.slots.set(id.raw, Some(st));
        proof {
            assert(self@ =~= old(self)@.update(id.raw as int, Some(st@)));
        }
    }

    /// Remove a window. Its identifier stays issued, so it is never reused,
    /// but it is no longer live.
    pub fn remove(&mut self, id: WindowId)
        requires
            old(self).spec_live(id),
        ensures
            final(self)@ == old(self)@.update(id.raw as int, None),
    {
        self.slots.set(id.raw, None);
        proof {
            assert(self@ =~= old(self)@.update(id.raw as int, None));
        }
    }
}

} // verus!
