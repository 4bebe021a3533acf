//! The draw queue: an ordered buffer of fully resolved draw objects, kept in
//! an outside queue structure that supports push, stable comparator sorting,
//! in-order traversal and clearing.
//!
//! The queue type comes from the `draw_queue` crate. Its contents in
//! iteration order are named by [`queue_seq`]; [`queue_ready`] names the
//! crate's internal condition that its index list is synchronized with its
//! object list, which its `iter` asserts. Every wrapper here keeps the queue
//! synchronized, so the library never trips that assertion.

use vstd::prelude::*;
use vstd::seq_lib::*;
use std::cmp::Ordering;
use crate::device::{Batch, Params};
use crate::space::Slice;

verus! {

/// A fully resolved, submittable unit of work: a batch handle, a parameter
/// block, a geometry slice and a depth value for sorting.
#[derive(Clone, Copy, PartialEq, Eq, Structural, Debug)]
pub struct Object {
    pub batch: Batch,
    pub params: Params,
    pub slice: Slice,
    pub depth: i64,
}

impl Object {
    /// Compare two objects by depth. Depths are plain integers, so the order
    /// is total and no two depths are incomparable.
    pub fn cmp_depth(&self, other: &Object) -> (r: Ordering)
        ensures
            r == Ordering::Less <==> self.depth < other.depth,
            r == Ordering::Greater <==> self.depth > other.depth,
            r == Ordering::Equal <==> self.depth == other.depth,
    {
        if self.depth < other.depth {
            Ordering::Less
        } else if self.depth > other.depth {
            Ordering::Greater
        } else {
            Ordering::Equal
        }
    }
}

impl Batch {
    /// Compare two batches by program handle.
    pub fn cmp_program(&self, other: &Batch) -> (r: Ordering)
        ensures
            r == Ordering::Less <==> self.program < other.program,
            r == Ordering::Greater <==> self.program > other.program,
            r == Ordering::Equal <==> self.program == other.program,
    {
        if self.program < other.program {
            Ordering::Less
        } else if self.program > other.program {
            Ordering::Greater
        } else {
            Ordering::Equal
        }
    }

    /// Compare two batches by mesh identity.
    pub fn cmp_mesh(&self, other: &Batch) -> (r: Ordering)
        ensures
            r == Ordering::Less <==> self.mesh_key < other.mesh_key,
            r == Ordering::Greater <==> self.mesh_key > other.mesh_key,
            r == Ordering::Equal <==> self.mesh_key == other.mesh_key,
    {
        if self.mesh_key < other.mesh_key {
            Ordering::Less
        } else if self.mesh_key > other.mesh_key {
            Ordering::Greater
        } else {
            Ordering::Equal
        }
    }

    /// Compare two batches by pipeline state identity.
    pub fn cmp_state(&self, other: &Batch) -> (r: Ordering)
        ensures
            r == Ordering::Less <==> self.state < other.state,
            r == Ordering::Greater <==> self.state > other.state,
            r == Ordering::Equal <==> self.state == other.state,
    {
        if self.state < other.state {
            Ordering::Less
        } else if self.state > other.state {
            Ordering::Greater
        } else {
            Ordering::Equal
        }
    }
}

#[verifier::external_type_specification]
#[verifier::external_body]
#[verifier::reject_recursive_types(T)]
pub struct ExQueue<T>(draw_queue::Queue<T>);

/// The objects a queue holds, in iteration order.
pub uninterp spec fn queue_seq(q: draw_queue::Queue<Object>) -> Seq<Object>;

/// Whether the queue's index list is synchronized with its object list, so
/// that its `iter` is defined. Every wrapper in this module maintains it.
pub uninterp spec fn queue_ready(q: draw_queue::Queue<Object>) -> bool;

/// Non-decreasing in depth: the front-to-back submission order.
pub open spec fn sorted_front_to_back(s: Seq<Object>) -> bool {
    forall|i: int, j: int| 0 <= i <= j < s.len() ==> s[i].depth <= s[j].depth
}

/// Non-increasing in depth: the back-to-front submission order.
pub open spec fn sorted_back_to_front(s: Seq<Object>) -> bool {
    forall|i: int, j: int| 0 <= i <= j < s.len() ==> s[i].depth >= s[j].depth
}

/// Grouped by program handle.
pub open spec fn sorted_by_program(s: Seq<Object>) -> bool {
    forall|i: int, j: int| 0 <= i <= j < s.len() ==> s[i].batch.program <= s[j].batch.program
}

/// Grouped by mesh identity.
pub open spec fn sorted_by_mesh(s: Seq<Object>) -> bool {
    forall|i: int, j: int| 0 <= i <= j < s.len() ==> s[i].batch.mesh_key <= s[j].batch.mesh_key
}

/// Grouped by pipeline state identity.
pub open spec fn sorted_by_state(s: Seq<Object>) -> bool {
    forall|i: int, j: int| 0 <= i <= j < s.len() ==> s[i].batch.state <= s[j].batch.state
}

/// Relies on draw_queue::Queue::new: both of its internal lists start empty.
#[verifier::external_body]
pub(crate) fn queue_new() -> (q: draw_queue::Queue<Object>)
    ensures
        queue_seq(q) == Seq::<Object>::empty(),
        queue_ready(q),
{
    draw_queue::Queue::new()
}

/// Relies on draw_queue::Queue::objects, the crate's public object list, to
/// append one object, and on Queue::update to append its index, so the new
/// object comes last in iteration order.
#[verifier::external_body]
pub(crate) fn queue_push(q: &mut draw_queue::Queue<Object>, o: Object)
    requires
        queue_ready(*old(q)),
    ensures
        queue_seq(*final(q)) == queue_seq(*old(q)).push(o),
        queue_ready(*final(q)),
{
    q.objects.push(o);
    q.update();
}

/// Relies on draw_queue::Queue::objects to drop all objects, and on
/// Queue::update to drop the now-dangling indices.
#[verifier::external_body]
pub(crate) fn queue_clear(q: &mut draw_queue::Queue<Object>)
    ensures
        queue_seq(*final(q)) == Seq::<Object>::empty(),
        queue_ready(*final(q)),
{
    q.objects.clear();
    q.update();
}

/// Relies on draw_queue::Queue::objects: one object is stored per index, so
/// the object list's length is the queue's length.
#[verifier::external_body]
pub(crate) fn queue_len(q: &draw_queue::Queue<Object>) -> (n: usize)
    requires
        queue_ready(*q),
    ensures
        n == queue_seq(*q).len(),
{
    q.objects.len()
}

/// Relies on draw_queue::Queue::iter: it yields the objects in index order,
/// which is the queue's iteration order.
#[verifier::external_body]
pub(crate) fn queue_collect(q: &draw_queue::Queue<Object>) -> (v: Vec<Object>)
    requires
        queue_ready(*q),
    ensures
        v@ == queue_seq(*q),
{
    q.iter().copied().collect()
}

/// Relies on draw_queue::Queue::sort: it synchronizes the index list, then
/// stable-sorts it by the comparator, here the depth order ascending.
#[verifier::external_body]
pub(crate) fn queue_sort_front_to_back(q: &mut draw_queue::Queue<Object>)
    requires
        queue_ready(*old(q)),
    ensures
        queue_ready(*final(q)),
        queue_seq(*final(q)).to_multiset() == queue_seq(*old(q)).to_multiset(),
        sorted_front_to_back(queue_seq(*final(q))),
{
    q.sort(|a, b| a.cmp_depth(b));
}

/// Relies on draw_queue::Queue::sort: it synchronizes the index list, then
/// stable-sorts it by the comparator, here the depth order descending.
#[verifier::external_body]
pub(crate) fn queue_sort_back_to_front(q: &mut draw_queue::Queue<Object>)
    requires
        queue_ready(*old(q)),
    ensures
        queue_ready(*final(q)),
        queue_seq(*final(q)).to_multiset() == queue_seq(*old(q)).to_multiset(),
        sorted_back_to_front(queue_seq(*final(q))),
{
    q.sort(|a, b| b.cmp_depth(a));
}

/// Relies on draw_queue::Queue::sort: it synchronizes the index list, then
/// stable-sorts it by the comparator, here the program handle order.
#[verifier::external_body]
pub(crate) fn queue_sort_by_program(q: &mut draw_queue::Queue<Object>)
    requires
        queue_ready(*old(q)),
    ensures
        queue_ready(*final(q)),
        queue_seq(*final(q)).to_multiset() == queue_seq(*old(q)).to_multiset(),
        sorted_by_program(queue_seq(*final(q))),
{
    q.sort(|a, b| a.batch.cmp_program(&b.batch));
}

/// Relies on draw_queue::Queue::sort: it synchronizes the index list, then
/// stable-sorts it by the comparator, here the mesh identity order.
#[verifier::external_body]
pub(crate) fn queue_sort_by_mesh(q: &mut draw_queue::Queue<Object>)
    requires
        queue_ready(*old(q)),
    ensures
        queue_ready(*final(q)),
        queue_seq(*final(q)).to_multiset() == queue_seq(*old(q)).to_multiset(),
        sorted_by_mesh(queue_seq(*final(q))),
{
    q.sort(|a, b| a.batch.cmp_mesh(&b.batch));
}

/// Relies on draw_queue::Queue::sort: it synchronizes the index list, then
/// stable-sorts it by the comparator, here the pipeline state order.
#[verifier::external_body]
pub(crate) fn queue_sort_by_state(q: &mut draw_queue::Queue<Object>)
    requires
        queue_ready(*old(q)),
    ensures
        queue_ready(*final(q)),
        queue_seq(*final(q)).to_multiset() == queue_seq(*old(q)).to_multiset(),
        sorted_by_state(queue_seq(*final(q))),
{
    q.sort(|a, b| a.batch.cmp_state(&b.batch));
}

} // verus!
