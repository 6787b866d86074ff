//! The dispatch-data bridge: a thread-scoped, stack-discipline binding.
//!
//! One caller-chosen value must be reachable from every callback that
//! fires nested inside one outer call, although the native layer has no
//! slot for it. The bridge binds a token for the dynamic extent of one
//! call: enter on the way in, exit on the way out. Reads see the
//! innermost active binding; a read with no active binding yields
//! nothing, and the embedding must treat that as a fatal misuse rather
//! than hand out stale data. Re-entrant dispatch nests: an inner binding
//! shadows the outer one and the outer one is restored on exit.

use vstd::prelude::*;

verus! {

/// The active bindings, outermost first; the token of a binding stands
/// for the address of the bound value, so a read is the value itself,
/// not a copy.
pub struct BindingStack {
    /// Active binding tokens, outermost first.
    pub stack: Vec<u64>,
}

impl BindingStack {
    /// No binding is active.
    pub fn new() -> (r: BindingStack)
        ensures
            r.stack@ == Seq::<u64>::empty(),
    {
        BindingStack { stack: Vec::new() }
    }

    /// Enter the dynamic extent of one bound call.
    pub fn enter(&mut self, token: u64)
        ensures
            final(self).stack@ == old(self).stack@.push(token),
    {
        self.stack.push(token);
    }

    /// Leave the extent entered last, handing back exactly the token
    /// that was bound there; the surrounding binding, if any, is active
    /// again.
    pub fn exit(&mut self) -> (r: u64)
        requires
            old(self).stack@.len() > 0,
        ensures
            r == old(self).stack@.last(),
            final(self).stack@ == old(self).stack@.drop_last(),
    {
        let r = self.stack.pop();
        match r {
            Some(t) => t,
            None => vstd::pervasive::unreached(),
        }
    }

    /// The innermost active binding, or nothing when no binding is
    /// active — in which case a caller must fail loudly, never fall back
    /// to stale data.
    pub fn current(&self) -> (r: Option<u64>)
        ensures
            self.stack@.len() == 0 ==> r is None,
            self.stack@.len() > 0 ==> r == Some(self.stack@.last()),
    {
        let n = self.stack.len();
        if n == 0 {
            None
        } else {
            Some(self.stack[n - 1])
        }
    }

    /// How many bindings are active.
    pub fn depth(&self) -> (r: usize)
        ensures
            r == self.stack@.len(),
    {
        self.stack.len()
    }
}

/// One step of bridge activity: entering or leaving a bound call.
#[derive(Clone, Copy, PartialEq, Eq, Structural, Debug)]
pub enum BridgeOp {
    /// A nested call binds this token.
    Enter(u64),
    /// The innermost call returns.
    Exit,
}

/// The bindings after a run of bridge activity; an exit with no active
/// binding changes nothing (well-nested runs never reach that case).
pub open spec fn apply_bridge_ops(stack: Seq<u64>, ops: Seq<BridgeOp>) -> Seq<u64>
    decreases ops.len(),
{
    if ops.len() == 0 {
        stack
    } else {
        let rest = ops.drop_first();
        match ops.first() {
            BridgeOp::Enter(t) => apply_bridge_ops(stack.push(t), rest),
            BridgeOp::Exit => if stack.len() == 0 {
                apply_bridge_ops(stack, rest)
            } else {
                apply_bridge_ops(stack.drop_last(), rest)
            },
        }
    }
}

/// How many more bindings are active after the run than before it.
pub open spec fn net_depth(ops: Seq<BridgeOp>) -> int
    decreases ops.len(),
{
    if ops.len() == 0 {
        0int
    } else {
        (match ops.first() {
            BridgeOp::Enter(t) => 1int,
            BridgeOp::Exit => -1int,
        }) + net_depth(ops.drop_first())
    }
}

/// A run is well nested above a floor of `depth` bindings: no exit ever
/// reaches below the bindings that were active when the run began.
pub open spec fn well_nested_from(depth: int, ops: Seq<BridgeOp>) -> bool
    decreases ops.len(),
{
    if ops.len() == 0 {
        true
    } else {
        match ops.first() {
            BridgeOp::Enter(t) => well_nested_from(depth + 1, ops.drop_first()),
            BridgeOp::Exit => depth > 0 && well_nested_from(depth - 1, ops.drop_first()),
        }
    }
}

/// A well-nested run leaves exactly the bindings it entered: the floor
/// is never touched.
pub proof fn lemma_bridge_frames(base: Seq<u64>, local: Seq<u64>, ops: Seq<BridgeOp>)
    requires
        well_nested_from(local.len() as int, ops),
    ensures
        apply_bridge_ops(base + local, ops) == base + apply_bridge_ops(local, ops),
    decreases ops.len(),
{
    if ops.len() == 0 {
    } else {
        let rest = ops.drop_first();
        match ops.first() {
            BridgeOp::Enter(t) => {
                assert((base + local).push(t) =~= base + local.push(t));
                lemma_bridge_frames(base, local.push(t), rest);
            },
            BridgeOp::Exit => {
                assert(local.len() > 0);
                assert((base + local).drop_last() =~= base + local.drop_last());
                lemma_bridge_frames(base, local.drop_last(), rest);
            },
        }
    }
}

/// A well-nested run changes the number of active bindings by exactly
/// its net depth.
pub proof fn lemma_bridge_len(stack: Seq<u64>, ops: Seq<BridgeOp>)
    requires
        well_nested_from(stack.len() as int, ops),
    ensures
        apply_bridge_ops(stack, ops).len() == stack.len() + net_depth(ops),
    decreases ops.len(),
{
    if ops.len() == 0 {
    } else {
        let rest = ops.drop_first();
        match ops.first() {
            BridgeOp::Enter(t) => {
                lemma_bridge_len(stack.push(t), rest);
            },
            BridgeOp::Exit => {
                lemma_bridge_len(stack.drop_last(), rest);
            },
        }
    }
}

/// Law of the binding's extent: bind a token, let any balanced,
/// well-nested activity run nested inside the call — every inner binding
/// it enters, it also leaves — and the innermost binding is again
/// exactly the bound token: a nested read yields precisely the value
/// that was bound, and the matching exit hands the token back and
/// restores the caller's bindings. After that exit the binding is gone;
/// a read then finds the outer bindings, or nothing.
pub proof fn lemma_binding_extent(stack: Seq<u64>, token: u64, ops: Seq<BridgeOp>)
    requires
        well_nested_from(0, ops),
        net_depth(ops) == 0,
    ensures
        apply_bridge_ops(stack.push(token), ops) == stack.push(token),
        apply_bridge_ops(stack.push(token), ops).last() == token,
        apply_bridge_ops(stack.push(token), ops).drop_last() == stack,
{
    let bound = stack.push(token);
    lemma_bridge_frames(bound, Seq::empty(), ops);
    lemma_bridge_len(Seq::empty(), ops);
    assert(bound + Seq::<u64>::empty() =~= bound);
    assert(apply_bridge_ops(Seq::empty(), ops) =~= Seq::<u64>::empty());
    assert(bound + apply_bridge_ops(Seq::empty(), ops) =~= bound);
    assert(bound.drop_last() =~= stack);
}

} // verus!
