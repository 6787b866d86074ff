//! The frame state machine: one decorated toplevel surface.
//!
//! A frame owns the negotiated state of one decorated window: its
//! capability set, visibility, title, popup-grab bookkeeping, and the
//! configure/commit handshake. State queries answer from the applied
//! configuration; compositor-bound requests are queued as intents and
//! performed by the embedding layer.

use vstd::prelude::*;

use crate::config::{Configuration, State};
use crate::edge::ResizeEdge;
use crate::flags::{Capabilities, Capability, WindowState, WindowStateFlag};

verus! {

/// Where a frame stands in the configure/commit handshake.
#[derive(Clone, Copy, PartialEq, Eq, Structural, Debug)]
pub enum Phase {
    /// Created, not yet mapped; no configure event can arrive yet.
    Unmapped,
    /// Mapped and waiting for the initial configure event.
    AwaitingConfigure,
    /// At least one configuration has been committed.
    Configured,
    /// The application has acted on a close request.
    Closed,
}

/// A compositor-bound request queued by a frame operation.
///
/// These are fire-and-forget: their effect, if any, is observed through a
/// later configure event, never immediately.
#[derive(Clone, Copy, PartialEq, Eq, Debug)]
pub enum FrameIntent {
    /// Minimize the window.
    Minimize,
    /// Maximize the window.
    Maximize,
    /// Leave the maximized state.
    UnsetMaximize,
    /// Make the window fullscreen, on one output or wherever the
    /// compositor prefers.
    Fullscreen {
        /// Handle of the chosen output, if any.
        output: Option<u64>,
    },
    /// Leave the fullscreen state.
    UnsetFullscreen,
    /// Start an interactive move, authorized by an input-event serial.
    InteractiveMove {
        /// Handle of the seat driving the move.
        seat: u64,
        /// Serial of the triggering input event.
        serial: u32,
    },
    /// Start an interactive resize from one edge, authorized by an
    /// input-event serial.
    InteractiveResize {
        /// Handle of the seat driving the resize.
        seat: u64,
        /// Serial of the triggering input event.
        serial: u32,
        /// The dragged edge.
        edge: ResizeEdge,
    },
    /// Show the window menu at a position, authorized by an input-event
    /// serial.
    ShowWindowMenu {
        /// Handle of the seat that asked for the menu.
        seat: u64,
        /// Serial of the triggering input event.
        serial: u32,
        /// Menu x position, in window coordinates.
        x: i32,
        /// Menu y position, in window coordinates.
        y: i32,
    },
}

/// An event the engine delivers to the application's frame callback.
#[derive(Clone, PartialEq, Eq, Debug)]
#[non_exhaustive]
pub enum FrameRequest {
    /// A new configuration was received. The application should respond
    /// by building a suitable [`State`] and applying it with
    /// [`FrameRef::commit`], passing this same configuration.
    Configure(Configuration),
    /// The compositor asked for the window to be closed. Acting on it is
    /// the application's decision; the engine does not force it.
    Close,
    /// The decoration asked for the content surface to be committed, as
    /// needed when decorations are synchronized subsurfaces.
    Commit,
    /// Any mapped popup holding a grab on the named seat should be
    /// dismissed: unmapped and ungrabbed.
    DismissPopup {
        /// Name of the seat whose grab must be released.
        seat_name: String,
    },
}

/// The negotiated state of one decorated toplevel surface.
pub struct FrameRef {
    /// Native handle identity; non-zero for a live frame.
    pub handle: u64,
    /// Position in the configure/commit handshake.
    pub phase: Phase,
    /// The window state applied by the latest commit.
    pub window_state: WindowState,
    /// The content size applied by the latest commit.
    pub content_size: Option<(i32, i32)>,
    /// The negotiated capability set.
    pub capabilities: Capabilities,
    /// Whether the decorations are shown.
    pub visible: bool,
    /// The window title, once set.
    pub title: Option<String>,
    /// The application id, once set.
    pub app_id: Option<String>,
    /// The minimum content size, once set.
    pub min_size: Option<(i32, i32)>,
    /// The maximum content size, once set.
    pub max_size: Option<(i32, i32)>,
    /// Handle of the parent frame, once set.
    pub parent: Option<u64>,
    /// Seats currently holding a popup grab for this frame, each at most
    /// once.
    pub grabs: Vec<String>,
    /// Queued compositor-bound requests, oldest first.
    pub intents: Vec<FrameIntent>,
}

/// The window state in force after a commit: the one the configuration
/// carries, or the previous one when the configuration carries none (or
/// when the commit is spontaneous and carries no configuration).
pub open spec fn committed_window_state(prev: WindowState, configuration: Option<
    Configuration,
>) -> WindowState {
    match configuration {
        Some(c) => match c.window_state {
            Some(ws) => ws,
            None => prev,
        },
        None => prev,
    }
}

impl FrameRef {
    /// The seats holding a popup grab, as character sequences.
    pub open spec fn grab_seats(self) -> Seq<Seq<char>> {
        self.grabs@.map_values(|s: String| s@)
    }

    /// Whether the named seat currently holds a popup grab.
    pub open spec fn has_grab_spec(self, seat: Seq<char>) -> bool {
        exists|i: int| 0 <= i < self.grab_seats().len() && self.grab_seats()[i] == seat
    }

    /// The set of seats holding a popup grab.
    pub open spec fn grab_set(self) -> Set<Seq<char>> {
        Set::new(|t: Seq<char>| self.has_grab_spec(t))
    }

    /// No seat holds more than one grab.
    pub open spec fn grabs_distinct(self) -> bool {
        forall|i: int, j: int|
            0 <= i < j < self.grab_seats().len() ==> self.grab_seats()[i] != self.grab_seats()[j]
    }

    /// A frame is floating when its applied window state pins neither
    /// size nor state: not maximized, fullscreen, or tiled.
    pub open spec fn floating_spec(self) -> bool {
        !self.window_state.constrains()
    }

    /// Well-formedness: live handle, protocol-only bits, positive sizes,
    /// at most one grab per seat, and a committed size once configured.
    pub open spec fn wf(self) -> bool {
        &&& self.handle != 0
        &&& self.capabilities.wf()
        &&& self.window_state.wf()
        &&& (match self.content_size {
            Some(s) => 0 < s.0 && 0 < s.1,
            None => true,
        })
        &&& (match self.min_size {
            Some(s) => 0 < s.0 && 0 < s.1,
            None => true,
        })
        &&& (match self.max_size {
            Some(s) => 0 < s.0 && 0 < s.1,
            None => true,
        })
        &&& (self.phase == Phase::Configured ==> self.content_size is Some)
        &&& self.grabs_distinct()
    }

    /// Everything but the grab list agrees between the two frames.
    pub open spec fn only_grabs_differ(new: FrameRef, prev: FrameRef) -> bool {
        new == (FrameRef { grabs: new.grabs, ..prev })
    }

    /// Everything but the intent queue agrees between the two frames.
    pub open spec fn only_intents_differ(new: FrameRef, prev: FrameRef) -> bool {
        new == (FrameRef { intents: new.intents, ..prev })
    }

    /// A freshly decorated frame: unmapped, floating, fully capable,
    /// visible, with nothing set, grabbed, or queued.
    pub fn new(handle: u64) -> (r: FrameRef)
        requires
            handle != 0,
        ensures
            r.wf(),
            r.handle == handle,
            r.phase == Phase::Unmapped,
            r.window_state.bits == 0,
            r.content_size is None,
            forall|c: Capability| r.capabilities@.contains(c),
            r.visible,
            r.title is None,
            r.app_id is None,
            r.min_size is None,
            r.max_size is None,
            r.parent is None,
            r.grab_seats() == Seq::<Seq<char>>::empty(),
            r.intents@ == Seq::<FrameIntent>::empty(),
            r.floating_spec(),
    {
        let r = FrameRef {
            handle,
            phase: Phase::Unmapped,
            window_state: WindowState::empty(),
            content_size: None,
            capabilities: Capabilities::all(),
            visible: true,
            title: None,
            app_id: None,
            min_size: None,
            max_size: None,
            parent: None,
            grabs: Vec::new(),
            intents: Vec::new(),
        };
        proof {
            assert(r.grab_seats() =~= Seq::<Seq<char>>::empty());
        }
        r
    }

    /// Act on a close: leave the handshake for good.
    pub fn close(&mut self)
        ensures
            final(self).phase == Phase::Closed,
            *final(self) == (FrameRef { phase: Phase::Closed, ..*old(self) }),
    {
        self.phase = Phase::Closed;
    }

    /// Map the window. This will eventually result in the initial
    /// configure event.
    pub fn map(&mut self)
        requires
            old(self).phase == Phase::Unmapped,
        ensures
            final(self).phase == Phase::AwaitingConfigure,
            *final(self) == (FrameRef { phase: Phase::AwaitingConfigure, ..*old(self) }),
    {
        self.phase = Phase::AwaitingConfigure;
    }

    /// Whether the window is floating: not maximized, tiled, fullscreen,
    /// or otherwise pinned to a fixed size and state.
    ///
    /// This answers from the applied configuration: inside a configure
    /// callback, the provided configuration must be applied with
    /// [`commit`](Self::commit) before it is reflected here.
    pub fn is_floating(&self) -> (r: bool)
        ensures
            r == self.floating_spec(),
    {
        !self.window_state.is_constrained()
    }

    /// Set the application id of the window.
    pub fn set_app_id(&mut self, app_id: String)
        ensures
            final(self).app_id == Some(app_id),
            *final(self) == (FrameRef { app_id: Some(app_id), ..*old(self) }),
    {
        self.app_id = Some(app_id);
    }

    /// Set the title of the window.
    pub fn set_title(&mut self, title: String)
        ensures
            final(self).title == Some(title),
            *final(self) == (FrameRef { title: Some(title), ..*old(self) }),
    {
        self.title = Some(title);
    }

    /// Get the title of the window, which must have been set.
    pub fn title(&self) -> (r: String)
        requires
            self.title is Some,
        ensures
            self.title matches Some(t) && r@ == t@,
    {
        match &self.title {
            Some(t) => t.clone(),
            None => vstd::pervasive::unreached(),
        }
    }

    /// Grant capabilities. Setting a capability does not implicitly
    /// unset any other.
    pub fn set_capabilities(&mut self, capabilities: Capabilities)
        requires
            old(self).capabilities.wf(),
            capabilities.wf(),
        ensures
            final(self).capabilities@ == old(self).capabilities@.union(capabilities@),
            final(self).capabilities@ == crate::flags::apply_cap_op(
                old(self).capabilities@,
                crate::flags::CapOp::Add(capabilities),
            ),
            final(self).capabilities.wf(),
            *final(self) == (FrameRef { capabilities: final(self).capabilities, ..*old(self) }),
    {
        self.capabilities = self.capabilities.union(capabilities);
    }

    /// Withdraw capabilities: the opposite of
    /// [`set_capabilities`](Self::set_capabilities). Removing an absent
    /// capability changes nothing.
    pub fn unset_capabilities(&mut self, capabilities: Capabilities)
        requires
            old(self).capabilities.wf(),
        ensures
            final(self).capabilities@ == old(self).capabilities@.difference(capabilities@),
            final(self).capabilities@ == crate::flags::apply_cap_op(
                old(self).capabilities@,
                crate::flags::CapOp::Remove(capabilities),
            ),
            final(self).capabilities.wf(),
            *final(self) == (FrameRef { capabilities: final(self).capabilities, ..*old(self) }),
    {
        self.capabilities = self.capabilities.difference(capabilities);
    }

    /// Whether the window has any of the given capabilities.
    pub fn has_capability(&self, capabilities: Capabilities) -> (r: bool)
        requires
            self.capabilities.wf(),
            capabilities.wf(),
        ensures
            r == exists|c: Capability|
                self.capabilities@.contains(c) && capabilities@.contains(c),
    {
        self.capabilities.intersects(&capabilities)
    }

    /// The negotiated capability set.
    pub fn capabilities(&self) -> (r: Capabilities)
        ensures
            r == self.capabilities,
    {
        self.capabilities
    }

    /// Queue a window-menu request at a position, authorized by the
    /// serial of the input event that asked for it.
    pub fn show_window_menu(&mut self, seat: u64, serial: u32, x: i32, y: i32)
        ensures
            final(self).intents@ == old(self).intents@.push(
                FrameIntent::ShowWindowMenu { seat, serial, x, y },
            ),
            Self::only_intents_differ(*final(self), *old(self)),
    {
        self.intents.push(FrameIntent::ShowWindowMenu { seat, serial, x, y });
    }

    /// Whether the named seat currently holds a popup grab.
    pub fn has_grab(&self, seat_name: &String) -> (r: bool)
        ensures
            r == self.has_grab_spec(seat_name@),
    {
        let n = self.grabs.len();
        let mut i: usize = 0;
        while i < n
            invariant
                i <= n,
                n == self.grab_seats().len(),
                forall|j: int| 0 <= j < i ==> self.grab_seats()[j] != seat_name@,
            decreases n - i,
        {
            if self.grabs[i].eq(seat_name) {
                proof {
                    assert(self.grab_seats()[i as int] == seat_name@);
                }
                return true;
            }
            proof {
                assert(self.grab_seats()[i as int] == self.grabs@[i as int]@);
            }
            i += 1;
        }
        false
    }

    /// Take a popup grab for the named seat. Call this when a popup is
    /// mapped with an input grab, so that the decorations can dismiss it
    /// properly; each grab must later be released with exactly one
    /// [`popup_ungrab`](Self::popup_ungrab).
    pub fn popup_grab(&mut self, seat_name: String)
        requires
            old(self).wf(),
            !old(self).has_grab_spec(seat_name@),
        ensures
            final(self).wf(),
            final(self).grab_seats() == old(self).grab_seats().push(seat_name@),
            final(self).grab_set() == old(self).grab_set().insert(seat_name@),
            final(self).has_grab_spec(seat_name@),
            Self::only_grabs_differ(*final(self), *old(self)),
    {
        let ghost prev = *self;
        self.grabs.push(seat_name);
        proof {
            let s = prev.grab_seats();
            let r = self.grab_seats();
            assert(r =~= s.push(seat_name@));
            assert forall|t: Seq<char>| self.has_grab_spec(t) == (prev.has_grab_spec(t) || t
                == seat_name@) by {
                if prev.has_grab_spec(t) {
                    let i = choose|i: int| 0 <= i < s.len() && s[i] == t;
                    assert(r[i] == t);
                    assert(self.has_grab_spec(t));
                } else if t == seat_name@ {
                    assert(r[s.len() as int] == t);
                    assert(self.has_grab_spec(t));
                } else if self.has_grab_spec(t) {
                    let i = choose|i: int| 0 <= i < r.len() && r[i] == t;
                    if i < s.len() {
                        assert(s[i] == t);
                        assert(prev.has_grab_spec(t));
                    }
                }
            }
            assert(self.grab_set() =~= prev.grab_set().insert(seat_name@));
            assert forall|i: int, j: int| 0 <= i < j < r.len() implies r[i] != r[j] by {
                if j < s.len() {
                    assert(s[i] == r[i] && s[j] == r[j]);
                } else {
                    assert(r[j] == seat_name@ && r[i] == s[i]);
                    if r[i] == seat_name@ {
                        assert(prev.has_grab_spec(seat_name@));
                    }
                }
            }
        }
    }

    /// Release the popup grab held by the named seat. Call this when the
    /// popup is unmapped.
    pub fn popup_ungrab(&mut self, seat_name: &String)
        requires
            old(self).wf(),
            old(self).has_grab_spec(seat_name@),
        ensures
            final(self).wf(),
            final(self).grab_seats().len() == old(self).grab_seats().len() - 1,
            !final(self).has_grab_spec(seat_name@),
            forall|t: Seq<char>|
                t != seat_name@ ==> final(self).has_grab_spec(t) == old(self).has_grab_spec(t),
            final(self).grab_set() == old(self).grab_set().remove(seat_name@),
            Self::only_grabs_differ(*final(self), *old(self)),
    {
        let n = self.grabs.len();
        let mut i: usize = 0;
        while i < n
            invariant
                i <= n,
                *self == *old(self),
                old(self).wf(),
                n == old(self).grab_seats().len(),
                old(self).has_grab_spec(seat_name@),
                forall|j: int| 0 <= j < i ==> old(self).grab_seats()[j] != seat_name@,
            decreases n - i,
        {
            if self.grabs[i].eq(seat_name) {
                proof {
                    assert(self.grab_seats()[i as int] == seat_name@);
                }
                self.grabs.remove(i);
                proof {
                    let s = old(self).grab_seats();
                    let r = self.grab_seats();
                    assert(s[i as int] == seat_name@);
                    assert forall|j: int| 0 <= j < s.len() && j != i implies s[j] != seat_name@ by {
                        if j < i {
                        } else {
                            assert(s[i as int] == seat_name@);
                        }
                    }
                    assert(r =~= s.remove(i as int));
                    assert(r.len() == s.len() - 1);
                    assert forall|t: Seq<char>| self.has_grab_spec(t) == (old(
                        self,
                    ).has_grab_spec(t) && t != seat_name@) by {
                        if self.has_grab_spec(t) {
                            let j = choose|j: int| 0 <= j < r.len() && r[j] == t;
                            let k: int = if j < i { j } else { j + 1 };
                            assert(s[k] == t);
                            assert(old(self).has_grab_spec(t));
                            assert(t != seat_name@);
                        }
                        if old(self).has_grab_spec(t) && t != seat_name@ {
                            let k = choose|k: int| 0 <= k < s.len() && s[k] == t;
                            let j: int = if k < i { k } else { k - 1 };
                            assert(k != i);
                            assert(r[j] == t);
                            assert(self.has_grab_spec(t));
                        }
                    }
                    assert(self.grab_set() =~= old(self).grab_set().remove(seat_name@));
                    assert forall|a: int, b: int| 0 <= a < b < r.len() implies r[a] != r[b] by {
                        let a2: int = if a < i { a } else { a + 1 };
                        let b2: int = if b < i { b } else { b + 1 };
                        assert(r[a] == s[a2] && r[b] == s[b2]);
                    }
                }
                return ;
            }
            proof {
                assert(self.grab_seats()[i as int] == self.grabs@[i as int]@);
            }
            i += 1;
        }
        proof {
            assert(false);
        }
    }

    /// Whether any popup grab is still outstanding. At teardown this
    /// must answer `false`: every grab must have been released.
    pub fn has_outstanding_grabs(&self) -> (r: bool)
        ensures
            r == (self.grab_seats().len() != 0),
    {
        self.grabs.len() != 0
    }

    /// Set the maximum content size.
    pub fn set_max_content_size(&mut self, width: i32, height: i32)
        requires
            0 < width,
            0 < height,
        ensures
            final(self).max_size == Some((width, height)),
            *final(self) == (FrameRef { max_size: Some((width, height)), ..*old(self) }),
    {
        self.max_size = Some((width, height));
    }

    /// Set the minimum content size.
    pub fn set_min_content_size(&mut self, width: i32, height: i32)
        requires
            0 < width,
            0 < height,
        ensures
            final(self).min_size == Some((width, height)),
            *final(self) == (FrameRef { min_size: Some((width, height)), ..*old(self) }),
    {
        self.min_size = Some((width, height));
    }

    /// Queue an interactive resize from one edge, authorized by the
    /// serial of the triggering input event; a stale serial would make
    /// the compositor reject the request.
    pub fn resize(&mut self, seat: u64, serial: u32, edge: ResizeEdge)
        ensures
            final(self).intents@ == old(self).intents@.push(
                FrameIntent::InteractiveResize { seat, serial, edge },
            ),
            Self::only_intents_differ(*final(self), *old(self)),
    {
        self.intents.push(FrameIntent::InteractiveResize { seat, serial, edge });
    }

    /// Queue an interactive move, authorized by the serial of the
    /// triggering input event.
    pub fn _move(&mut self, seat: u64, serial: u32)
        ensures
            final(self).intents@ == old(self).intents@.push(
                FrameIntent::InteractiveMove { seat, serial },
            ),
            Self::only_intents_differ(*final(self), *old(self)),
    {
        self.intents.push(FrameIntent::InteractiveMove { seat, serial });
    }

    /// Commit a new window state.
    ///
    /// In response to a configure event, the same configuration that
    /// triggered the cycle must be passed back; only then do queries such
    /// as [`is_floating`](Self::is_floating) reflect it. Passing no
    /// configuration is for spontaneous commits, such as an
    /// application-driven resize while floating, and needs a completed
    /// initial configure.
    pub fn commit(&mut self, state: &State, configuration: Option<&Configuration>)
        requires
            old(self).wf(),
            state.wf(),
            match configuration {
                Some(c) => c.wf() && old(self).phase != Phase::Unmapped && old(self).phase
                    != Phase::Closed,
                None => old(self).phase == Phase::Configured,
            },
        ensures
            final(self).wf(),
            final(self).phase == Phase::Configured,
            final(self).content_size == Some((state.width, state.height)),
            final(self).window_state == committed_window_state(
                old(self).window_state,
                match configuration {
                    Some(c) => Some(*c),
                    None => None,
                },
            ),
            *final(self) == (FrameRef {
                phase: Phase::Configured,
                content_size: Some((state.width, state.height)),
                window_state: final(self).window_state,
                ..*old(self)
            }),
    {
        self.phase = Phase::Configured;
        self.content_size = Some((state.width(), state.height()));
        match configuration {
            Some(c) => match c.window_state() {
                Some(ws) => {
                    self.window_state = ws;
                },
                None => {},
            },
            None => {},
        }
        proof {
            assert(self.grab_seats() == old(self).grab_seats());
        }
    }

    /// Queue a minimize request.
    pub fn set_minimized(&mut self)
        ensures
            final(self).intents@ == old(self).intents@.push(FrameIntent::Minimize),
            Self::only_intents_differ(*final(self), *old(self)),
    {
        self.intents.push(FrameIntent::Minimize);
    }

    /// Queue a maximize request.
    pub fn set_maximized(&mut self)
        ensures
            final(self).intents@ == old(self).intents@.push(FrameIntent::Maximize),
            Self::only_intents_differ(*final(self), *old(self)),
    {
        self.intents.push(FrameIntent::Maximize);
    }

    /// Queue an unmaximize request.
    pub fn unset_maximized(&mut self)
        ensures
            final(self).intents@ == old(self).intents@.push(FrameIntent::UnsetMaximize),
            Self::only_intents_differ(*final(self), *old(self)),
    {
        self.intents.push(FrameIntent::UnsetMaximize);
    }

    /// Queue a fullscreen request, on one output or wherever the
    /// compositor prefers.
    pub fn set_fullscreen(&mut self, output: Option<u64>)
        ensures
            final(self).intents@ == old(self).intents@.push(FrameIntent::Fullscreen { output }),
            Self::only_intents_differ(*final(self), *old(self)),
    {
        self.intents.push(FrameIntent::Fullscreen { output });
    }

    /// Queue an unfullscreen request.
    pub fn unset_fullscreen(&mut self)
        ensures
            final(self).intents@ == old(self).intents@.push(FrameIntent::UnsetFullscreen),
            Self::only_intents_differ(*final(self), *old(self)),
    {
        self.intents.push(FrameIntent::UnsetFullscreen);
    }

    /// Show or hide the decorations; a borderless application hides
    /// them.
    pub fn set_visibility(&mut self, visible: bool)
        ensures
            final(self).visible == visible,
            *final(self) == (FrameRef { visible, ..*old(self) }),
    {
        self.visible = visible;
    }

    /// Whether the decorations are shown.
    pub fn is_visible(&self) -> (r: bool)
        ensures
            r == self.visible,
    {
        self.visible
    }

    /// Stack this window relative to a parent frame.
    pub fn set_parent(&mut self, parent: &FrameRef)
        ensures
            final(self).parent == Some(parent.handle),
            *final(self) == (FrameRef { parent: Some(parent.handle), ..*old(self) }),
    {
        self.parent = Some(parent.handle);
    }

    /// The content size applied by the latest commit.
    pub fn content_size(&self) -> (r: Option<(i32, i32)>)
        ensures
            r == self.content_size,
    {
        self.content_size
    }

    /// Where the frame stands in the handshake.
    pub fn phase(&self) -> (r: Phase)
        ensures
            r == self.phase,
    {
        self.phase
    }

    /// Hand the queued compositor-bound requests to the embedding layer,
    /// oldest first, leaving the queue empty.
    pub fn take_intents(&mut self) -> (r: Vec<FrameIntent>)
        ensures
            r@ == old(self).intents@,
            final(self).intents@ == Seq::<FrameIntent>::empty(),
            Self::only_intents_differ(*final(self), *old(self)),
    {
        let mut taken: Vec<FrameIntent> = Vec::new();
        core::mem::swap(&mut taken, &mut self.intents);
        proof {
            assert(self.intents@ =~= Seq::<FrameIntent>::empty());
        }
        taken
    }
}

/// A frame used for decorating a surface: the owner of the negotiated
/// state, of the callback cell whose address the engine round-trips, and
/// of a reference to the context that produced it.
pub struct Frame {
    /// The negotiated frame state.
    pub frame_ref: FrameRef,
    /// Address token of the heap-owned callback cell; freed exactly once,
    /// on release.
    pub callback_cell: u64,
    /// Handle of the owning context, kept alive by this frame.
    pub context_handle: u64,
}

impl Frame {
    /// Live frame state and a live callback cell.
    pub open spec fn wf(self) -> bool {
        self.frame_ref.wf() && self.callback_cell != 0
    }
}

/// Law: a commit that applies a configuration carrying a window state
/// makes the frame's floating classification exactly the one the state's
/// bits imply: floating if and only if none of the maximized, fullscreen
/// or tiled flags is set. A configuration carrying no window state, or a
/// spontaneous commit, keeps the previous window state.
pub proof fn lemma_commit_floating(prev: WindowState, c: Configuration)
    ensures
        c.window_state matches Some(ws) ==> !committed_window_state(prev, Some(c)).constrains()
            == (!ws@.contains(WindowStateFlag::Maximized) && !ws@.contains(
            WindowStateFlag::Fullscreen,
        ) && !ws@.contains(WindowStateFlag::TiledLeft) && !ws@.contains(
            WindowStateFlag::TiledRight,
        ) && !ws@.contains(WindowStateFlag::TiledTop) && !ws@.contains(
            WindowStateFlag::TiledBottom,
        )),
        c.window_state is None ==> committed_window_state(prev, Some(c)) == prev,
        committed_window_state(prev, None) == prev,
{
}

/// Law: a grab and its matching ungrab cancel out: releasing a seat that
/// was freshly grabbed leaves exactly the grabs that were held before.
pub proof fn lemma_grab_ungrab_roundtrip(held: Set<Seq<char>>, seat: Seq<char>)
    requires
        !held.contains(seat),
    ensures
        held.insert(seat).remove(seat) == held,
{
    assert(held.insert(seat).remove(seat) =~= held);
}

/// One popup-grab bookkeeping step on a frame.
pub enum GrabOp {
    /// The named seat takes a grab when a popup is mapped.
    Grab(Seq<char>),
    /// The named seat releases its grab when the popup is unmapped.
    Ungrab(Seq<char>),
}

/// The seats holding grabs after a history of grab/ungrab steps, applied
/// in order.
pub open spec fn apply_grab_ops(held: Set<Seq<char>>, ops: Seq<GrabOp>) -> Set<Seq<char>>
    decreases ops.len(),
{
    if ops.len() == 0 {
        held
    } else {
        match ops.last() {
            GrabOp::Grab(seat) => apply_grab_ops(held, ops.drop_last()).insert(seat),
            GrabOp::Ungrab(seat) => apply_grab_ops(held, ops.drop_last()).remove(seat),
        }
    }
}

/// Whether a history leaves the named seat holding a grab: the latest
/// step that names the seat decides; if no step does, the initial grabs
/// decide.
pub open spec fn net_grabbed(held: Set<Seq<char>>, ops: Seq<GrabOp>, seat: Seq<char>) -> bool
    decreases ops.len(),
{
    if ops.len() == 0 {
        held.contains(seat)
    } else {
        match ops.last() {
            GrabOp::Grab(s) => if s == seat {
                true
            } else {
                net_grabbed(held, ops.drop_last(), seat)
            },
            GrabOp::Ungrab(s) => if s == seat {
                false
            } else {
                net_grabbed(held, ops.drop_last(), seat)
            },
        }
    }
}

/// Law: after any history of grab and ungrab steps, a seat holds a grab
/// exactly when the net effect of the history, applied in order, leaves
/// it one.
pub proof fn lemma_grab_history(held: Set<Seq<char>>, ops: Seq<GrabOp>, seat: Seq<char>)
    ensures
        apply_grab_ops(held, ops).contains(seat) == net_grabbed(held, ops, seat),
    decreases ops.len(),
{
    if ops.len() > 0 {
        lemma_grab_history(held, ops.drop_last(), seat);
    }
}

/// Law: a frame that starts with no grab and whose every grab is matched
/// by a later ungrab of the same seat has no outstanding grab at
/// teardown.
pub proof fn lemma_matched_grabs_leave_none(ops: Seq<GrabOp>)
    requires
        forall|seat: Seq<char>| !net_grabbed(Set::<Seq<char>>::empty(), ops, seat),
    ensures
        apply_grab_ops(Set::<Seq<char>>::empty(), ops) == Set::<Seq<char>>::empty(),
{
    assert forall|seat: Seq<char>| !apply_grab_ops(
        Set::<Seq<char>>::empty(),
        ops,
    ).contains(seat) by {
        lemma_grab_history(Set::<Seq<char>>::empty(), ops, seat);
    }
    assert(apply_grab_ops(Set::<Seq<char>>::empty(), ops) =~= Set::<Seq<char>>::empty());
}

} // verus!
