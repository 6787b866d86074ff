//! Configurations proposed by the compositor and states committed by the
//! application.
//!
//! A [`Configuration`] is a read-only snapshot handed to the application
//! during a configure callback: an optional content size and an optional
//! window state. A [`State`] is the size the application intends to
//! render at, built immediately before a commit and consumed by it.

use vstd::prelude::*;

use crate::flags::WindowState;

verus! {

/// An object corresponding to a configured content state: the size the
/// application is about to commit.
#[derive(Clone, Copy, PartialEq, Eq, Structural, Debug)]
pub struct State {
    /// Content width, positive.
    pub width: i32,
    /// Content height, positive.
    pub height: i32,
}

impl State {
    /// Both dimensions are positive.
    pub open spec fn wf(self) -> bool {
        0 < self.width && 0 < self.height
    }

    /// Create a new content surface state.
    pub fn new(width: i32, height: i32) -> (r: State)
        requires
            0 < width,
            0 < height,
        ensures
            r == (State { width, height }),
            r.wf(),
    {
        State { width, height }
    }

    /// The width this state commits.
    pub fn width(&self) -> (r: i32)
        ensures
            r == self.width,
    {
        self.width
    }

    /// The height this state commits.
    pub fn height(&self) -> (r: i32)
        ensures
            r == self.height,
    {
        self.height
    }
}

/// An object representing a toplevel window configuration: what the
/// compositor proposes in one configure event.
#[derive(Clone, Copy, PartialEq, Eq, Debug)]
pub struct Configuration {
    /// The proposed content size; absent when the compositor leaves the
    /// size to the application (typically while floating).
    pub content_size: Option<(i32, i32)>,
    /// The proposed window state; absent when the state is unchanged
    /// from the previous configuration.
    pub window_state: Option<WindowState>,
}

impl Configuration {
    /// A present content size has two positive dimensions; a present
    /// window state carries only protocol bits, at least one of them.
    pub open spec fn wf(self) -> bool {
        &&& (match self.content_size {
            Some(s) => 0 < s.0 && 0 < s.1,
            None => true,
        })
        &&& (match self.window_state {
            Some(ws) => ws.wf() && ws.bits != 0,
            None => true,
        })
    }

    /// Build a configuration snapshot from decoded native data.
    pub fn new(content_size: Option<(i32, i32)>, window_state: Option<WindowState>) -> (r:
        Configuration)
        requires
            content_size matches Some(s) ==> 0 < s.0 && 0 < s.1,
            window_state matches Some(ws) ==> ws.wf() && ws.bits != 0,
        ensures
            r == (Configuration { content_size, window_state }),
            r.wf(),
    {
        Configuration { content_size, window_state }
    }

    /// Get the expected size of the content for this configuration.
    ///
    /// If the configuration doesn't contain a size, `None` is returned
    /// and the application should keep the size currently in force.
    pub fn content_size(&self) -> (r: Option<(i32, i32)>)
        requires
            self.wf(),
        ensures
            r == self.content_size,
            r matches Some(s) ==> 0 < s.0 && 0 < s.1,
    {
        self.content_size
    }

    /// The proposed content size, or the caller's fallback when the
    /// configuration carries none.
    pub fn content_size_or(&self, fallback_width: i32, fallback_height: i32) -> (r: (i32, i32))
        requires
            self.wf(),
            0 < fallback_width,
            0 < fallback_height,
        ensures
            r == (match self.content_size {
                Some(s) => s,
                None => (fallback_width, fallback_height),
            }),
            0 < r.0 && 0 < r.1,
    {
        match self.content_size {
            Some(s) => s,
            None => (fallback_width, fallback_height),
        }
    }

    /// Get the window state for this configuration.
    ///
    /// If the configuration doesn't carry a window state, `None` is
    /// returned and the application should assume the state remains
    /// unchanged.
    pub fn window_state(&self) -> (r: Option<WindowState>)
        ensures
            r == self.window_state,
    {
        self.window_state
    }
}

} // verus!
