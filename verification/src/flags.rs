//! Capability and window-state bitsets.
//!
//! Both sets cross the native boundary as fixed-width integers, so the
//! encoding is bit-exact: every named flag owns one protocol bit. The
//! public contracts speak in terms of flag sets; `bits` / `from_bits`
//! give the wire encoding.

use vstd::prelude::*;

verus! {

/// One window-management action a decorated window may offer.
#[derive(Clone, Copy, PartialEq, Eq, Structural, Debug)]
pub enum Capability {
    /// Interactive move.
    Move,
    /// Interactive resize.
    Resize,
    /// Minimize the window.
    Minimize,
    /// Make the window fullscreen.
    Fullscreen,
    /// Close the window.
    Close,
}

/// One bit of a window-state set.
#[derive(Clone, Copy, PartialEq, Eq, Structural, Debug)]
pub enum WindowStateFlag {
    /// The window has focus.
    Active,
    /// The window is maximized.
    Maximized,
    /// The window is fullscreen.
    Fullscreen,
    /// The window is tiled against the left edge.
    TiledLeft,
    /// The window is tiled against the right edge.
    TiledRight,
    /// The window is tiled against the top edge.
    TiledTop,
    /// The window is tiled against the bottom edge.
    TiledBottom,
}

/// Protocol bit of one capability.
pub open spec fn cap_bit(c: Capability) -> u32 {
    match c {
        Capability::Move => 1,
        Capability::Resize => 2,
        Capability::Minimize => 4,
        Capability::Fullscreen => 8,
        Capability::Close => 16,
    }
}

/// Protocol bit of one window-state flag.
pub open spec fn state_bit(f: WindowStateFlag) -> u32 {
    match f {
        WindowStateFlag::Active => 1,
        WindowStateFlag::Maximized => 2,
        WindowStateFlag::Fullscreen => 4,
        WindowStateFlag::TiledLeft => 8,
        WindowStateFlag::TiledRight => 16,
        WindowStateFlag::TiledTop => 32,
        WindowStateFlag::TiledBottom => 64,
    }
}

/// All capability bits.
pub const CAPS_MASK: u32 = 31;

/// All window-state bits.
pub const STATE_MASK: u32 = 127;

/// Window-state bits that fix the window's size and state: a window
/// showing any of them is not floating.
pub const CONSTRAINED_MASK: u32 = 126;

spec fn single_bit(m: u32) -> bool {
    m == 1 || m == 2 || m == 4 || m == 8 || m == 16 || m == 32 || m == 64
}

proof fn lemma_member_or()
    by (bit_vector)
    ensures
        forall|a: u32, b: u32, m: u32| (#[trigger] ((a | b) & m) != 0) == (a & m != 0 || b & m
            != 0),
{
}

proof fn lemma_member_diff()
    by (bit_vector)
    ensures
        forall|a: u32, b: u32, m: u32|
            single_bit(m) ==> (#[trigger] ((a & !b) & m) != 0) == (a & m != 0 && b & m == 0),
{
}

proof fn lemma_member_and()
    by (bit_vector)
    ensures
        forall|a: u32, b: u32, m: u32|
            single_bit(m) ==> (#[trigger] ((a & b) & m) != 0) == (a & m != 0 && b & m != 0),
{
}

proof fn lemma_mask_or()
    by (bit_vector)
    ensures
        forall|a: u32, b: u32, mask: u32|
            a & mask == a && b & mask == b ==> #[trigger] ((a | b) & mask) == (a | b),
{
}

proof fn lemma_mask_diff()
    by (bit_vector)
    ensures
        forall|a: u32, b: u32, mask: u32|
            a & mask == a ==> #[trigger] ((a & !b) & mask) == (a & !b),
{
}

proof fn lemma_zero_member()
    by (bit_vector)
    ensures
        forall|m: u32| #[trigger] (0u32 & m) == 0,
{
}

/// A set of capabilities of a decorated window, bit-compatible with the
/// engine's encoding.
#[derive(Clone, Copy, PartialEq, Eq, Structural, Debug)]
pub struct Capabilities {
    /// Wire encoding; well-formed values keep only bits of `CAPS_MASK`.
    pub bits: u32,
}

impl View for Capabilities {
    type V = Set<Capability>;

    open spec fn view(&self) -> Set<Capability> {
        Set::new(|c: Capability| self.bits & cap_bit(c) != 0)
    }
}

impl Capabilities {
    /// Only protocol bits are set.
    pub open spec fn wf(self) -> bool {
        self.bits & CAPS_MASK == self.bits
    }

    /// The set with no capability.
    pub fn empty() -> (r: Capabilities)
        ensures
            r.wf(),
            r@ == Set::<Capability>::empty(),
            r.bits == 0,
    {
        let r = Capabilities { bits: 0 };
        proof {
            lemma_zero_member();
            assert(0u32 & CAPS_MASK == 0) by (bit_vector);
            assert(r@ =~= Set::<Capability>::empty());
        }
        r
    }

    /// The set with every capability.
    pub fn all() -> (r: Capabilities)
        ensures
            r.wf(),
            forall|c: Capability| r@.contains(c),
            r.bits == CAPS_MASK,
    {
        let r = Capabilities { bits: CAPS_MASK };
        proof {
            assert(31u32 & 31 == 31 && 31u32 & 1 != 0 && 31u32 & 2 != 0 && 31u32 & 4 != 0
                && 31u32 & 8 != 0 && 31u32 & 16 != 0) by (bit_vector);
            assert forall|c: Capability| r@.contains(c) by {
                assert(cap_bit(c) == 1 || cap_bit(c) == 2 || cap_bit(c) == 4 || cap_bit(c) == 8
                    || cap_bit(c) == 16);
            }
        }
        r
    }

    /// The set holding exactly one capability.
    pub fn from_flag(c: Capability) -> (r: Capabilities)
        ensures
            r.wf(),
            r@ == Set::<Capability>::empty().insert(c),
            r.bits == cap_bit(c),
    {
        let bits: u32 = match c {
            Capability::Move => 1,
            Capability::Resize => 2,
            Capability::Minimize => 4,
            Capability::Fullscreen => 8,
            Capability::Close => 16,
        };
        let r = Capabilities { bits };
        proof {
            assert(1u32 & 31 == 1 && 2u32 & 31 == 2 && 4u32 & 31 == 4 && 8u32 & 31 == 8 && 16u32
                & 31 == 16) by (bit_vector);
            assert forall|d: Capability| r@.contains(d) == (d == c) by {
                lemma_single_member(cap_bit(c), cap_bit(d));
                if cap_bit(c) == cap_bit(d) {
                    assert(c == d);
                }
            }
            assert(r@ =~= Set::<Capability>::empty().insert(c));
        }
        r
    }

    /// Decode a wire value; fails exactly on values carrying unknown bits.
    pub fn from_bits(bits: u32) -> (r: Option<Capabilities>)
        ensures
            bits & CAPS_MASK == bits ==> r == Some(Capabilities { bits }),
            bits & CAPS_MASK != bits ==> r is None,
            r matches Some(v) ==> v.wf(),
    {
        if bits & CAPS_MASK == bits {
            Some(Capabilities { bits })
        } else {
            None
        }
    }

    /// The wire encoding.
    pub fn bits(&self) -> (r: u32)
        ensures
            r == self.bits,
    {
        self.bits
    }

    /// Whether one capability is in the set.
    pub fn has(&self, c: Capability) -> (r: bool)
        ensures
            r == self@.contains(c),
    {
        let m: u32 = match c {
            Capability::Move => 1,
            Capability::Resize => 2,
            Capability::Minimize => 4,
            Capability::Fullscreen => 8,
            Capability::Close => 16,
        };
        self.bits & m != 0
    }

    /// Whether no capability is in the set.
    pub fn is_empty(&self) -> (r: bool)
        requires
            self.wf(),
        ensures
            r == (self@ == Set::<Capability>::empty()),
    {
        proof {
            let a = self.bits;
            assert(a & 31 == a ==> ((a == 0) == (a & 1 == 0 && a & 2 == 0 && a & 4 == 0 && a & 8
                == 0 && a & 16 == 0))) by (bit_vector);
            if a == 0 {
                lemma_zero_member();
                assert(self@ =~= Set::<Capability>::empty());
            } else {
                assert(a & 1 != 0 || a & 2 != 0 || a & 4 != 0 || a & 8 != 0 || a & 16 != 0);
                if a & 1 != 0 {
                    assert(self@.contains(Capability::Move));
                } else if a & 2 != 0 {
                    assert(self@.contains(Capability::Resize));
                } else if a & 4 != 0 {
                    assert(self@.contains(Capability::Minimize));
                } else if a & 8 != 0 {
                    assert(self@.contains(Capability::Fullscreen));
                } else {
                    assert(self@.contains(Capability::Close));
                }
            }
        }
        self.bits == 0
    }

    /// The union of two capability sets.
    pub fn union(self, other: Capabilities) -> (r: Capabilities)
        requires
            self.wf(),
            other.wf(),
        ensures
            r.wf(),
            r@ == self@.union(other@),
            r.bits == self.bits | other.bits,
    {
        let r = Capabilities { bits: self.bits | other.bits };
        proof {
            lemma_mask_or();
            lemma_member_or();
            assert forall|c: Capability| r@.contains(c) == (self@.contains(c) || other@.contains(
                c)) by {
                assert(((self.bits | other.bits) & cap_bit(c) != 0) == (self.bits & cap_bit(c)
                    != 0 || other.bits & cap_bit(c) != 0));
            }
            assert(r@ =~= self@.union(other@));
        }
        r
    }

    /// The capabilities of `self` that are not in `other`.
    pub fn difference(self, other: Capabilities) -> (r: Capabilities)
        requires
            self.wf(),
        ensures
            r.wf(),
            r@ == self@.difference(other@),
            r.bits == self.bits & !other.bits,
    {
        let r = Capabilities { bits: self.bits & !other.bits };
        proof {
            lemma_mask_diff();
            lemma_member_diff();
            assert forall|c: Capability| r@.contains(c) == (self@.contains(c)
                && !other@.contains(c)) by {
                lemma_cap_bit_single(c);
                assert(((self.bits & !other.bits) & cap_bit(c) != 0) == (self.bits & cap_bit(c)
                    != 0 && other.bits & cap_bit(c) == 0));
            }
            assert(r@ =~= self@.difference(other@));
        }
        r
    }

    /// Whether the two sets share a capability.
    pub fn intersects(&self, other: &Capabilities) -> (r: bool)
        requires
            self.wf(),
            other.wf(),
        ensures
            r == exists|c: Capability| self@.contains(c) && other@.contains(c),
    {
        proof {
            let a = self.bits;
            let b = other.bits;
            assert(a & 31 == a && b & 31 == b ==> ((a & b != 0) == ((a & 1 != 0 && b & 1 != 0)
                || (a & 2 != 0 && b & 2 != 0) || (a & 4 != 0 && b & 4 != 0) || (a & 8 != 0 && b
                & 8 != 0) || (a & 16 != 0 && b & 16 != 0)))) by (bit_vector);
            if a & b != 0 {
                if a & 1 != 0 && b & 1 != 0 {
                    assert(self@.contains(Capability::Move) && other@.contains(Capability::Move));
                } else if a & 2 != 0 && b & 2 != 0 {
                    assert(self@.contains(Capability::Resize) && other@.contains(
                        Capability::Resize));
                } else if a & 4 != 0 && b & 4 != 0 {
                    assert(self@.contains(Capability::Minimize) && other@.contains(
                        Capability::Minimize));
                } else if a & 8 != 0 && b & 8 != 0 {
                    assert(self@.contains(Capability::Fullscreen) && other@.contains(
                        Capability::Fullscreen));
                } else {
                    assert(self@.contains(Capability::Close) && other@.contains(
                        Capability::Close));
                }
            } else {
                assert forall|c: Capability| !(self@.contains(c) && other@.contains(c)) by {
                    lemma_cap_bit_single(c);
                    lemma_member_and();
                    assert((a & b) & cap_bit(c) == 0) by {
                        lemma_zero_member();
                    }
                }
            }
        }
        self.bits & other.bits != 0
    }
}

proof fn lemma_cap_bit_single(c: Capability)
    ensures
        single_bit(cap_bit(c)),
{
}

proof fn lemma_state_bit_single(f: WindowStateFlag)
    ensures
        single_bit(state_bit(f)),
{
}

proof fn lemma_single_member(m: u32, n: u32)
    by (bit_vector)
    requires
        single_bit(m),
        single_bit(n),
    ensures
        (m & n != 0) == (m == n),
{
}

/// The window states a configuration can carry, bit-compatible with the
/// engine's encoding.
#[derive(Clone, Copy, PartialEq, Eq, Structural, Debug)]
pub struct WindowState {
    /// Wire encoding; well-formed values keep only bits of `STATE_MASK`.
    pub bits: u32,
}

impl View for WindowState {
    type V = Set<WindowStateFlag>;

    open spec fn view(&self) -> Set<WindowStateFlag> {
        Set::new(|f: WindowStateFlag| self.bits & state_bit(f) != 0)
    }
}

impl WindowState {
    /// Only protocol bits are set.
    pub open spec fn wf(self) -> bool {
        self.bits & STATE_MASK == self.bits
    }

    /// A window state constrains the window's size when it maximizes,
    /// fullscreens or tiles it; `Active` alone does not.
    pub open spec fn constrains(self) -> bool {
        self@.contains(WindowStateFlag::Maximized) || self@.contains(WindowStateFlag::Fullscreen)
            || self@.contains(WindowStateFlag::TiledLeft) || self@.contains(
            WindowStateFlag::TiledRight) || self@.contains(WindowStateFlag::TiledTop)
            || self@.contains(WindowStateFlag::TiledBottom)
    }

    /// The state with no flag.
    pub fn empty() -> (r: WindowState)
        ensures
            r.wf(),
            r@ == Set::<WindowStateFlag>::empty(),
            r.bits == 0,
    {
        let r = WindowState { bits: 0 };
        proof {
            lemma_zero_member();
            assert(0u32 & STATE_MASK == 0) by (bit_vector);
            assert(r@ =~= Set::<WindowStateFlag>::empty());
        }
        r
    }

    /// The state holding exactly one flag.
    pub fn from_flag(f: WindowStateFlag) -> (r: WindowState)
        ensures
            r.wf(),
            r@ == Set::<WindowStateFlag>::empty().insert(f),
            r.bits == state_bit(f),
    {
        let bits: u32 = match f {
            WindowStateFlag::Active => 1,
            WindowStateFlag::Maximized => 2,
            WindowStateFlag::Fullscreen => 4,
            WindowStateFlag::TiledLeft => 8,
            WindowStateFlag::TiledRight => 16,
            WindowStateFlag::TiledTop => 32,
            WindowStateFlag::TiledBottom => 64,
        };
        let r = WindowState { bits };
        proof {
            assert(1u32 & 127 == 1 && 2u32 & 127 == 2 && 4u32 & 127 == 4 && 8u32 & 127 == 8
                && 16u32 & 127 == 16 && 32u32 & 127 == 32 && 64u32 & 127 == 64) by (bit_vector);
            assert forall|g: WindowStateFlag| r@.contains(g) == (g == f) by {
                lemma_state_bit_single(f);
                lemma_state_bit_single(g);
                lemma_single_member(state_bit(f), state_bit(g));
                if state_bit(f) == state_bit(g) {
                    assert(f == g);
                }
            }
            assert(r@ =~= Set::<WindowStateFlag>::empty().insert(f));
        }
        r
    }

    /// Decode a wire value; fails exactly on values carrying unknown bits.
    pub fn from_bits(bits: u32) -> (r: Option<WindowState>)
        ensures
            bits & STATE_MASK == bits ==> r == Some(WindowState { bits }),
            bits & STATE_MASK != bits ==> r is None,
            r matches Some(v) ==> v.wf(),
    {
        if bits & STATE_MASK == bits {
            Some(WindowState { bits })
        } else {
            None
        }
    }

    /// The wire encoding.
    pub fn bits(&self) -> (r: u32)
        ensures
            r == self.bits,
    {
        self.bits
    }

    /// Whether one flag is in the state.
    pub fn has(&self, f: WindowStateFlag) -> (r: bool)
        ensures
            r == self@.contains(f),
    {
        let m: u32 = match f {
            WindowStateFlag::Active => 1,
            WindowStateFlag::Maximized => 2,
            WindowStateFlag::Fullscreen => 4,
            WindowStateFlag::TiledLeft => 8,
            WindowStateFlag::TiledRight => 16,
            WindowStateFlag::TiledTop => 32,
            WindowStateFlag::TiledBottom => 64,
        };
        self.bits & m != 0
    }

    /// Whether the state carries no flag at all.
    pub fn is_empty(&self) -> (r: bool)
        ensures
            r == (self.bits == 0),
    {
        self.bits == 0
    }

    /// The union of two window states.
    pub fn union(self, other: WindowState) -> (r: WindowState)
        requires
            self.wf(),
            other.wf(),
        ensures
            r.wf(),
            r@ == self@.union(other@),
            r.bits == self.bits | other.bits,
    {
        let r = WindowState { bits: self.bits | other.bits };
        proof {
            lemma_mask_or();
            lemma_member_or();
            assert forall|f: WindowStateFlag| r@.contains(f) == (self@.contains(f)
                || other@.contains(f)) by {
                assert(((self.bits | other.bits) & state_bit(f) != 0) == (self.bits & state_bit(
                    f) != 0 || other.bits & state_bit(f) != 0));
            }
            assert(r@ =~= self@.union(other@));
        }
        r
    }

    /// Whether the state pins the window's size and state, so that the
    /// window is not floating.
    pub fn is_constrained(&self) -> (r: bool)
        ensures
            r == self.constrains(),
    {
        proof {
            let a = self.bits;
            assert((a & 126 != 0) == (a & 2 != 0 || a & 4 != 0 || a & 8 != 0 || a & 16 != 0 || a
                & 32 != 0 || a & 64 != 0)) by (bit_vector);
        }
        self.bits & CONSTRAINED_MASK != 0
    }
}

/// One capability-negotiation step: granting or withdrawing a set of
/// capabilities.
#[derive(Clone, Copy, PartialEq, Eq, Structural, Debug)]
pub enum CapOp {
    /// Grant every capability of the carried set.
    Add(Capabilities),
    /// Withdraw every capability of the carried set.
    Remove(Capabilities),
}

/// The effect of one capability-negotiation step on a capability set.
pub open spec fn apply_cap_op(s: Set<Capability>, op: CapOp) -> Set<Capability> {
    match op {
        CapOp::Add(x) => s.union(x@),
        CapOp::Remove(x) => s.difference(x@),
    }
}

/// The effect of a sequence of capability-negotiation steps, applied in
/// order.
pub open spec fn apply_cap_ops(s: Set<Capability>, ops: Seq<CapOp>) -> Set<Capability>
    decreases ops.len(),
{
    if ops.len() == 0 {
        s
    } else {
        apply_cap_op(apply_cap_ops(s, ops.drop_last()), ops.last())
    }
}

/// What the net effect of a sequence of steps grants for one capability:
/// the latest step that mentions the capability decides; if no step does,
/// the initial set decides.
pub open spec fn net_grants(init: Set<Capability>, ops: Seq<CapOp>, c: Capability) -> bool
    decreases ops.len(),
{
    if ops.len() == 0 {
        init.contains(c)
    } else {
        match ops.last() {
            CapOp::Add(x) => if x@.contains(c) {
                true
            } else {
                net_grants(init, ops.drop_last(), c)
            },
            CapOp::Remove(x) => if x@.contains(c) {
                false
            } else {
                net_grants(init, ops.drop_last(), c)
            },
        }
    }
}

/// Law: after any sequence of capability add/remove steps, a capability is
/// held exactly when the net effect of the sequence, applied in order,
/// grants it.
pub proof fn lemma_capability_sequence(init: Set<Capability>, ops: Seq<CapOp>, c: Capability)
    ensures
        apply_cap_ops(init, ops).contains(c) == net_grants(init, ops, c),
    decreases ops.len(),
{
    if ops.len() > 0 {
        lemma_capability_sequence(init, ops.drop_last(), c);
    }
}

/// Law: granting capabilities that are already held changes nothing.
pub proof fn lemma_add_present_noop(s: Set<Capability>, x: Capabilities)
    requires
        x@.subset_of(s),
    ensures
        apply_cap_op(s, CapOp::Add(x)) == s,
{
    assert(s.union(x@) =~= s);
}

/// Law: withdrawing capabilities that are not held changes nothing.
pub proof fn lemma_remove_absent_noop(s: Set<Capability>, x: Capabilities)
    requires
        s.disjoint(x@),
    ensures
        apply_cap_op(s, CapOp::Remove(x)) == s,
{
    assert(s.difference(x@) =~= s);
}

} // verus!
