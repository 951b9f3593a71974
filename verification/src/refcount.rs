//! The reference-counting protocol of the base capability.
//!
//! Every capability object is reference-counted: each party holding a
//! pointer holds a reference, add-reference and release adjust the count,
//! and a release that drops the count to zero destroys the object.  The
//! host must never assume a particular count value, only that acquisitions
//! and releases are individually balanced; this module states and proves
//! exactly that discipline.

use vstd::prelude::*;

verus! {

/// One step of an object's reference history.
#[derive(Copy, Clone, PartialEq, Eq, Structural, Debug)]
pub enum RefOp {
    AddRef,
    Release,
}

/// Host-side model of a capability object's reference state.
///
/// A freshly created object comes back with its one reference already held.
/// `destroyed` records that a release dropped the count to zero, after
/// which the object must never be touched again.
#[derive(Copy, Clone, PartialEq, Eq, Structural, Debug)]
pub struct RefCount {
    pub count: u32,
    pub destroyed: bool,
}

/// The count and the destruction flag agree: an object is destroyed
/// exactly when no reference is left.
pub open spec fn ref_wf(m: RefCount) -> bool {
    m.destroyed <==> m.count == 0
}

/// The state after one step; meaningful when the object is still alive and
/// the count cannot overflow.
pub open spec fn apply_ref_op(m: RefCount, op: RefOp) -> RefCount {
    match op {
        RefOp::AddRef => RefCount { count: (m.count + 1) as u32, destroyed: false },
        RefOp::Release => RefCount { count: (m.count - 1) as u32, destroyed: m.count == 1 },
    }
}

/// The state after a whole history of steps, first step first.
pub open spec fn apply_ref_ops(m: RefCount, ops: Seq<RefOp>) -> RefCount
    decreases ops.len(),
{
    if ops.len() == 0 {
        m
    } else {
        apply_ref_op(apply_ref_ops(m, ops.drop_last()), ops.last())
    }
}

/// Net reference count after a history, starting from the single reference
/// a creation hands back.
pub open spec fn net_count(ops: Seq<RefOp>) -> int
    decreases ops.len(),
{
    if ops.len() == 0 {
        1int
    } else {
        net_count(ops.drop_last()) + if ops.last() is AddRef {
            1int
        } else {
            -1int
        }
    }
}

impl RefCount {
    /// A newly created object: its creator's reference is already held.
    pub fn new() -> (r: Self)
        ensures
            r.count == 1,
            !r.destroyed,
            ref_wf(r),
    {
        RefCount { count: 1, destroyed: false }
    }

    /// Acquires one more reference; returns the resulting count.
    /// Only a live object may be touched.
    pub fn add_ref(&mut self) -> (r: u32)
        requires
            !old(self).destroyed,
            ref_wf(*old(self)),
            old(self).count < u32::MAX,
        ensures
            *final(self) == apply_ref_op(*old(self), RefOp::AddRef),
            ref_wf(*final(self)),
            r == final(self).count,
            r == old(self).count + 1,
    {
        self.count = self.count + 1;
        self.destroyed = false;
        self.count
    }

    /// Gives up one reference; returns the resulting count.  When the count
    /// reaches zero the object destroys itself and must not be used again.
    pub fn release(&mut self) -> (r: u32)
        requires
            !old(self).destroyed,
            ref_wf(*old(self)),
        ensures
            *final(self) == apply_ref_op(*old(self), RefOp::Release),
            ref_wf(*final(self)),
            r == final(self).count,
            r == old(self).count - 1,
            final(self).destroyed <==> r == 0,
    {
        self.count = self.count - 1;
        self.destroyed = self.count == 0;
        self.count
    }
}

proof fn lemma_take_of_take(ops: Seq<RefOp>, i: int, j: int)
    requires
        0 <= j <= i <= ops.len(),
    ensures
        ops.take(i).take(j) == ops.take(j),
{
    assert(ops.take(i).take(j) =~= ops.take(j));
}

proof fn lemma_refcount_net(ops: Seq<RefOp>)
    requires
        forall|i: int| 0 <= i < ops.len() ==> net_count(#[trigger] ops.take(i)) > 0,
        forall|i: int| 0 <= i <= ops.len() ==> net_count(#[trigger] ops.take(i)) <= u32::MAX,
    ensures
        apply_ref_ops(RefCount { count: 1, destroyed: false }, ops).count == net_count(ops),
        apply_ref_ops(RefCount { count: 1, destroyed: false }, ops).destroyed <==> net_count(ops)
            == 0,
    decreases ops.len(),
{
    let init = RefCount { count: 1, destroyed: false };
    if ops.len() == 0 {
        assert(ops.take(0) =~= ops);
    } else {
        let head = ops.drop_last();
        assert forall|i: int| 0 <= i <= head.len() implies net_count(#[trigger] head.take(i))
            == net_count(ops.take(i)) by {
            assert(head.take(i) =~= ops.take(i));
        }
        lemma_refcount_net(head);
        assert(ops.take(ops.len() - 1) =~= head);
        assert(ops.take(ops.len() as int) =~= ops);
        assert(net_count(head) > 0);
        assert(apply_ref_ops(init, head).count == net_count(head));
    }
}

/// Law: for any history of add-reference and release steps on an object
/// created with its one reference held, as long as the running net count
/// stays positive the object stays alive — no destruction occurs before the
/// end — and the object is destroyed after the history exactly when the net
/// count has reached zero, the single destruction happening at that point.
pub proof fn lemma_refcount_lifetime(ops: Seq<RefOp>)
    requires
        forall|i: int| 0 <= i < ops.len() ==> net_count(#[trigger] ops.take(i)) > 0,
        forall|i: int| 0 <= i <= ops.len() ==> net_count(#[trigger] ops.take(i)) <= u32::MAX,
    ensures
        forall|i: int|
            0 <= i < ops.len() ==> !apply_ref_ops(
                RefCount { count: 1, destroyed: false },
                #[trigger] ops.take(i),
            ).destroyed,
        apply_ref_ops(RefCount { count: 1, destroyed: false }, ops).count == net_count(ops),
        apply_ref_ops(RefCount { count: 1, destroyed: false }, ops).destroyed <==> net_count(ops)
            == 0,
{
    assert(ops.take(ops.len() as int) =~= ops);
    lemma_refcount_net(ops);
    assert forall|i: int|
        0 <= i < ops.len() implies !apply_ref_ops(
        RefCount { count: 1, destroyed: false },
        #[trigger] ops.take(i),
    ).destroyed by {
        let p = ops.take(i);
        assert forall|j: int| 0 <= j <= p.len() implies net_count(#[trigger] p.take(j)) == net_count(
            ops.take(j),
        ) by {
            lemma_take_of_take(ops, i, j);
        }
        lemma_refcount_net(p);
    }
}

} // verus!
