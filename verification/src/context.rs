//! The decoration context and the error-routing registry.
//!
//! One context wraps one display connection. The native error signal
//! carries only the native context handle and a discriminant — no user
//! data — so a registry maps each live handle to its registered callback,
//! and an error is delivered to exactly the matching entry. A context's
//! entry is inserted before any dispatch can run on it and removed when
//! its last owning reference goes away.

use vstd::prelude::*;

use crate::error::Error;
use crate::flags::Capability;
use crate::frame::{Frame, FrameIntent, FrameRef, Phase};

verus! {

/// An event routed to a context's registered callback.
#[derive(Clone, Debug)]
#[non_exhaustive]
pub enum Request {
    /// An asynchronous engine error.
    Error(Error),
}

/// One registry entry: a live context handle and its callback token.
#[derive(Clone, Copy, PartialEq, Eq, Structural, Debug)]
pub struct Registration {
    /// Native context handle; unique among live entries.
    pub handle: u64,
    /// Token identifying the registered callback in the embedding layer.
    pub callback: u64,
}

/// The error-routing registry: one entry per live context.
pub struct Registry {
    /// Live registrations, insertion order.
    pub entries: Vec<Registration>,
}

impl Registry {
    /// Whether some live entry carries this handle.
    pub open spec fn contains_handle(self, handle: u64) -> bool {
        exists|i: int| 0 <= i < self.entries@.len() && self.entries@[i].handle == handle
    }

    /// Whether this exact handle/callback pair is registered.
    pub open spec fn contains_pair(self, handle: u64, callback: u64) -> bool {
        exists|i: int|
            0 <= i < self.entries@.len() && self.entries@[i] == (Registration { handle, callback })
    }

    /// No two live entries share a handle, so lookups are unambiguous.
    pub open spec fn wf(self) -> bool {
        forall|i: int, j: int|
            0 <= i < j < self.entries@.len() ==> self.entries@[i].handle
                != self.entries@[j].handle
    }

    /// An empty registry.
    pub fn new() -> (r: Registry)
        ensures
            r.wf(),
            r.entries@ == Seq::<Registration>::empty(),
    {
        Registry { entries: Vec::new() }
    }

    /// Whether some live entry carries this handle.
    pub fn contains(&self, handle: u64) -> (r: bool)
        ensures
            r == self.contains_handle(handle),
    {
        let n = self.entries.len();
        let mut i: usize = 0;
        while i < n
            invariant
                i <= n,
                n == self.entries@.len(),
                forall|j: int| 0 <= j < i ==> self.entries@[j].handle != handle,
            decreases n - i,
        {
            if self.entries[i].handle == handle {
                return true;
            }
            i += 1;
        }
        false
    }

    /// Insert an entry for a handle that has none yet.
    pub fn register(&mut self, handle: u64, callback: u64)
        requires
            old(self).wf(),
            !old(self).contains_handle(handle),
        ensures
            final(self).wf(),
            final(self).entries@ == old(self).entries@.push(Registration { handle, callback }),
            final(self).contains_pair(handle, callback),
    {
        self.entries.push(Registration { handle, callback });
        proof {
            let s = old(self).entries@;
            let r = self.entries@;
            assert(r[s.len() as int] == (Registration { handle, callback }));
            assert forall|i: int, j: int| 0 <= i < j < r.len() implies r[i].handle
                != r[j].handle by {
                if j < s.len() {
                } else {
                    assert(r[j].handle == handle && r[i] == s[i]);
                }
            }
        }
    }

    /// Remove the entry for a handle, if it has one; any other entry is
    /// kept as it was.
    pub fn unregister(&mut self, handle: u64)
        requires
            old(self).wf(),
        ensures
            final(self).wf(),
            !final(self).contains_handle(handle),
            forall|h: u64, cb: u64|
                h != handle ==> final(self).contains_pair(h, cb) == old(self).contains_pair(
                    h,
                    cb,
                ),
            old(self).contains_handle(handle) ==> final(self).entries@.len() == old(
                self,
            ).entries@.len() - 1,
            !old(self).contains_handle(handle) ==> final(self).entries@ == old(self).entries@,
    {
        let n = self.entries.len();
        let mut i: usize = 0;
        while i < n
            invariant
                i <= n,
                *self == *old(self),
                old(self).wf(),
                n == old(self).entries@.len(),
                forall|j: int| 0 <= j < i ==> old(self).entries@[j].handle != handle,
            decreases n - i,
        {
            if self.entries[i].handle == handle {
                self.entries.remove(i);
                proof {
                    let s = old(self).entries@;
                    let r = self.entries@;
                    assert(s[i as int].handle == handle);
                    assert forall|j: int| 0 <= j < s.len() && j != i implies s[j].handle
                        != handle by {
                        if j < i {
                        } else {
                            assert(s[i as int].handle == handle);
                        }
                    }
                    assert(r =~= s.remove(i as int));
                    assert forall|j: int| 0 <= j < r.len() implies r[j].handle != handle by {
                        let k: int = if j < i { j } else { j + 1 };
                        assert(r[j] == s[k]);
                    }
                    assert forall|h: u64, cb: u64| h != handle implies self.contains_pair(h, cb)
                        == old(self).contains_pair(h, cb) by {
                        if self.contains_pair(h, cb) {
                            let j = choose|j: int|
                                0 <= j < r.len() && r[j] == (Registration { handle: h, callback: cb });
                            let k: int = if j < i { j } else { j + 1 };
                            assert(s[k] == r[j]);
                            assert(old(self).contains_pair(h, cb));
                        }
                        if old(self).contains_pair(h, cb) && h != handle {
                            let k = choose|k: int|
                                0 <= k < s.len() && s[k] == (Registration { handle: h, callback: cb });
                            assert(k != i);
                            let j: int = if k < i { k } else { k - 1 };
                            assert(r[j] == s[k]);
                            assert(self.contains_pair(h, cb));
                        }
                    }
                    assert forall|a: int, b: int| 0 <= a < b < r.len() implies r[a].handle
                        != r[b].handle by {
                        let a2: int = if a < i { a } else { a + 1 };
                        let b2: int = if b < i { b } else { b + 1 };
                        assert(r[a] == s[a2] && r[b] == s[b2]);
                    }
                }
                return ;
            }
            i += 1;
        }
    }

    /// The callback registered for a handle: the registry is scanned at
    /// error-delivery time and only the matching entry answers.
    pub fn lookup(&self, handle: u64) -> (r: Option<u64>)
        requires
            self.wf(),
        ensures
            r matches Some(cb) ==> self.contains_pair(handle, cb),
            r is None ==> !self.contains_handle(handle),
            self.contains_handle(handle) ==> r is Some,
    {
        let n = self.entries.len();
        let mut i: usize = 0;
        while i < n
            invariant
                i <= n,
                n == self.entries@.len(),
                forall|j: int| 0 <= j < i ==> self.entries@[j].handle != handle,
            decreases n - i,
        {
            let e = self.entries[i];
            if e.handle == handle {
                proof {
                    assert(self.entries@[i as int] == (Registration {
                        handle,
                        callback: e.callback,
                    }));
                }
                return Some(e.callback);
            }
            i += 1;
        }
        None
    }
}

/// Law: routing picks exactly the registered callback of the handle the
/// error names; no other live context's callback can be chosen, because
/// live handles are unique.
pub proof fn lemma_error_routing_unambiguous(r: Registry, handle: u64, cb1: u64, cb2: u64)
    requires
        r.wf(),
        r.contains_pair(handle, cb1),
        r.contains_pair(handle, cb2),
    ensures
        cb1 == cb2,
{
    let i = choose|i: int|
        0 <= i < r.entries@.len() && r.entries@[i] == (Registration { handle, callback: cb1 });
    let j = choose|j: int|
        0 <= j < r.entries@.len() && r.entries@[j] == (Registration { handle, callback: cb2 });
    if i != j {
        assert(r.entries@[i].handle == r.entries@[j].handle);
    }
}

/// A decoration context: one native engine instance bound to one display
/// connection.
#[derive(Clone, Copy, PartialEq, Eq, Structural, Debug)]
pub struct Context {
    /// Native handle; non-zero for a live context.
    pub handle: u64,
}

impl Context {
    /// A live handle.
    pub open spec fn wf(self) -> bool {
        self.handle != 0
    }

    /// Bind a context to a freshly opened engine instance, registering
    /// its error callback before any dispatch can run on it.
    pub fn new(handle: u64, callback: u64, registry: &mut Registry) -> (r: Context)
        requires
            handle != 0,
            old(registry).wf(),
            !old(registry).contains_handle(handle),
        ensures
            r.wf(),
            r.handle == handle,
            final(registry).wf(),
            final(registry).entries@ == old(registry).entries@.push(
                Registration { handle, callback },
            ),
            final(registry).contains_pair(handle, callback),
    {
        registry.register(handle, callback);
        Context { handle }
    }

    /// Translate the result of a decorate call: a null frame handle
    /// means the engine rejected the surface and nothing was created; a
    /// live handle yields a fresh unmapped frame owning the callback
    /// cell.
    pub fn decorate(&self, raw_frame: u64, callback_cell: u64) -> (r: Option<Frame>)
        requires
            self.wf(),
            callback_cell != 0,
        ensures
            raw_frame == 0 ==> r is None,
            raw_frame != 0 ==> (r matches Some(f) && f.wf() && f.callback_cell == callback_cell
                && f.context_handle == self.handle && f.frame_ref.handle == raw_frame
                && f.frame_ref.phase == Phase::Unmapped && f.frame_ref.floating_spec()
                && f.frame_ref.window_state.bits == 0 && f.frame_ref.content_size is None && (
            forall|c: Capability| f.frame_ref.capabilities@.contains(c))
                && f.frame_ref.visible && f.frame_ref.title is None && f.frame_ref.app_id is None
                && f.frame_ref.min_size is None && f.frame_ref.max_size is None
                && f.frame_ref.parent is None && f.frame_ref.grab_seats() == Seq::<
            Seq<char>,
            >::empty() && f.frame_ref.intents@ == Seq::<FrameIntent>::empty()),
    {
        if raw_frame == 0 {
            None
        } else {
            Some(
                Frame {
                    frame_ref: FrameRef::new(raw_frame),
                    callback_cell,
                    context_handle: self.handle,
                },
            )
        }
    }

    /// Drop bookkeeping: the registry entry goes away exactly when the
    /// context does.
    pub fn release(self, registry: &mut Registry)
        requires
            old(registry).wf(),
        ensures
            final(registry).wf(),
            !final(registry).contains_handle(self.handle),
            forall|h: u64, cb: u64|
                h != self.handle ==> final(registry).contains_pair(h, cb) == old(
                    registry,
                ).contains_pair(h, cb),
    {
        registry.unregister(self.handle);
    }
}

/// Whether a native dispatch status reports a usable connection: a
/// negative status means the caller should stop driving the loop.
pub fn dispatch_ok(status: i32) -> (r: bool)
    ensures
        r == (status >= 0),
{
    status >= 0
}

/// Translate a dispatch timeout to the native convention: no timeout
/// polls without blocking, a timeout in milliseconds caps the wait.
pub fn timeout_to_native(timeout_ms: Option<u32>) -> (r: i32)
    requires
        timeout_ms matches Some(t) ==> t <= 0x7fff_ffff,
    ensures
        timeout_ms is None ==> r == 0,
        timeout_ms matches Some(t) ==> r == t as i32,
{
    match timeout_ms {
        Some(t) => t as i32,
        None => 0,
    }
}

} // verus!
