//! The editor lifecycle: the state machine that owns at most one live UI
//! surface.
//!
//! The lifecycle is either `Detached` (no surface) or `Open` (one surface,
//! bound to a host-supplied parent window). The surface itself — the
//! toolkit window that draws pixels — lives outside the core; the lifecycle
//! tracks it through an opaque token chosen by whoever constructed it, and
//! hands that token back on close so the caller can tear the surface down.

use vstd::prelude::*;

verus! {

/// Width of the editor window, reported to the host before it opens.
pub const WINDOW_WIDTH: i32 = 1024;

/// Height of the editor window, reported to the host before it opens.
pub const WINDOW_HEIGHT: i32 = 512;

/// State machine owning at most one live UI surface.
pub struct EditorLifecycle {
    surface: Option<u64>,
}

impl EditorLifecycle {
    /// The token of the live surface, if one is open.
    pub closed spec fn surface_spec(self) -> Option<u64> {
        self.surface
    }

    /// Whether a surface is currently open.
    pub open spec fn is_open_spec(self) -> bool {
        self.surface_spec() is Some
    }

    /// Builds a lifecycle in the `Detached` state.
    pub fn new() -> (e: EditorLifecycle)
        ensures
            e.surface_spec() is None,
            !e.is_open_spec(),
    {
        EditorLifecycle { surface: None }
    }

    /// Attaches a freshly built surface: succeeds only from `Detached`.
    /// A second open while a surface is live is a reported failure that
    /// leaves the lifecycle — in particular the prior surface's token —
    /// untouched; the prior surface is never silently overwritten.
    pub fn open(&mut self, surface: u64) -> (ok: bool)
        ensures
            ok == !old(self).is_open_spec(),
            ok ==> final(self).surface_spec() == Some(surface),
            !ok ==> *final(self) == *old(self),
    {
        match self.surface {
            Some(_) => false,
            None => {
                self.surface = Some(surface);
                true
            },
        }
    }

    /// Detaches the live surface, if any, returning its token so the caller
    /// can release the native resources behind it. A close while already
    /// `Detached` is a no-op returning nothing.
    pub fn close(&mut self) -> (torn: Option<u64>)
        ensures
            final(self).surface_spec() is None,
            !final(self).is_open_spec(),
            torn == old(self).surface_spec(),
    {
        let torn = match self.surface {
            Some(t) => Some(t),
            None => None,
        };
        self.surface = None;
        torn
    }

    /// Reports the current state without side effects.
    pub fn is_open(&self) -> (r: bool)
        ensures
            r == self.is_open_spec(),
    {
        match self.surface {
            Some(_) => true,
            None => false,
        }
    }

    /// Fixed origin of the editor window.
    pub fn position(&self) -> (p: (i32, i32))
        ensures
            p.0 == 0,
            p.1 == 0,
    {
        (0, 0)
    }

    /// Fixed geometry of the editor window, consumed by the host to reserve
    /// screen space before the surface opens.
    pub fn size(&self) -> (s: (i32, i32))
        ensures
            s.0 == WINDOW_WIDTH,
            s.1 == WINDOW_HEIGHT,
    {
        (WINDOW_WIDTH, WINDOW_HEIGHT)
    }
}

} // verus!
