//! The phase: accumulates draw calls for the entities its technique applies
//! to, memoizes compilation per essence, orders the queue by the first
//! configured criterion and flushes it into a renderer.

use vstd::prelude::*;
use vstd::seq_lib::*;
use crate::cache::{model_lookup, model_store, Cache, CacheEntry, CacheModel};
use crate::device::{
    BatchError,
    Context,
    DrawCall,
    FlushError,
    Frame,
    Params,
    Renderer,
    Submission,
};
use crate::queue::{
    queue_clear,
    queue_collect,
    queue_len,
    queue_new,
    queue_push,
    queue_ready,
    queue_seq,
    queue_sort_back_to_front,
    queue_sort_by_mesh,
    queue_sort_by_program,
    queue_sort_by_state,
    queue_sort_front_to_back,
    sorted_back_to_front,
    sorted_by_mesh,
    sorted_by_program,
    sorted_by_state,
    sorted_front_to_back,
    Object,
};
use crate::space::{Mesh, Slice};
use crate::technique::{Technique, ViewInfo};

verus! {

broadcast use vstd::string::to_string_from_display_ensures_for_str;

/// A sort criterion for the queue. Only the first configured criterion is
/// applied per flush; criteria are not chained.
#[derive(Clone, Copy, PartialEq, Eq, Structural, Debug)]
pub enum Sort {
    FrontToBack,
    BackToFront,
    Program,
    Mesh,
    DrawState,
}

/// A cached draw object recalled for a new instance: the geometry slice is
/// overwritten with the entity's current one and the parameters are patched
/// from the fresh view information; batch and depth stay as compiled.
pub open spec fn refreshed_object(
    o: Object,
    slice: Slice,
    material: u32,
    view_info: ViewInfo,
) -> Object {
    Object {
        batch: o.batch,
        params: Params { material, mvp: view_info.mvp },
        slice,
        depth: o.depth,
    }
}

/// How many vertex attributes the mesh handed to the device carries: the
/// entity's own, plus the technique's instanced ones when it supplies any.
pub open spec fn merged_attr_count(mesh: Mesh, tech: Technique) -> int {
    mesh.attributes@.len() + match tech.spec_aux() {
        None => 0int,
        Some(aux) => aux.len() as int,
    }
}

/// What the compile path produces for an essence: a draw object bound by the
/// context, or the binding failure.
pub open spec fn compiled_entry(
    tech: Technique,
    ctx: Context,
    mesh: Mesh,
    slice: Slice,
    material: u32,
    view_info: ViewInfo,
) -> CacheEntry {
    match ctx.spec_make_batch(
        tech.program,
        mesh.topology,
        merged_attr_count(mesh, tech),
        tech.state,
    ) {
        Ok(b) => Ok(
            Object {
                batch: b,
                params: Params { material, mvp: view_info.mvp },
                slice,
                depth: view_info.spec_depth(),
            },
        ),
        Err(e) => Err(e),
    }
}

/// The technique after one run of its compile path.
pub open spec fn after_compile(tech: Technique) -> Technique {
    Technique {
        accept_all: tech.accept_all,
        accepted_materials: tech.accepted_materials,
        program: tech.program,
        state: tech.state,
        aux_attributes: tech.aux_attributes,
        compile_calls: (tech.compile_calls + 1) as u64,
    }
}

/// Everything one enqueue call changes and returns.
pub struct EnqueueOutcome {
    pub technique: Technique,
    pub cache: CacheModel,
    pub queue: Seq<Object>,
    pub result: Result<(), BatchError>,
}

/// What `Phase::enqueue` does, as a function of the phase's state and the
/// call's inputs: reject when the technique does not apply; recall and
/// refresh on a cached success; return a cached failure unchanged; otherwise
/// compile once, bind, record the outcome under the essence whatever it was,
/// and push on success.
pub open spec fn spec_enqueue(
    tech: Technique,
    cache: CacheModel,
    queue: Seq<Object>,
    ctx: Context,
    mesh: Mesh,
    slice: Slice,
    material: u32,
    view_info: ViewInfo,
) -> EnqueueOutcome {
    match tech.spec_test(mesh, material) {
        None => EnqueueOutcome {
            technique: tech,
            cache,
            queue,
            result: Err(BatchError::NotApplicable),
        },
        Some(essence) => match model_lookup(cache, essence) {
            Some(entry) => match entry {
                Ok(o) => EnqueueOutcome {
                    technique: tech,
                    cache,
                    queue: queue.push(refreshed_object(o, slice, material, view_info)),
                    result: Ok(()),
                },
                Err(e) => EnqueueOutcome { technique: tech, cache, queue, result: Err(e) },
            },
            None => {
                let entry = compiled_entry(tech, ctx, mesh, slice, material, view_info);
                let stored = model_store(cache, essence, entry);
                match entry {
                    Ok(o) => EnqueueOutcome {
                        technique: after_compile(tech),
                        cache: stored,
                        queue: queue.push(o),
                        result: Ok(()),
                    },
                    Err(e) => EnqueueOutcome {
                        technique: after_compile(tech),
                        cache: stored,
                        queue,
                        result: Err(e),
                    },
                }
            },
        },
    }
}

/// Whether `after` is `before` with the first criterion of `sort` applied:
/// the same sequence when there is no criterion, else a reordering that is
/// sorted by that criterion's key.
pub open spec fn sort_applied(sort: Seq<Sort>, before: Seq<Object>, after: Seq<Object>) -> bool {
    if sort.len() == 0 {
        after == before
    } else {
        &&& after.to_multiset() == before.to_multiset()
        &&& match sort[0] {
            Sort::FrontToBack => sorted_front_to_back(after),
            Sort::BackToFront => sorted_back_to_front(after),
            Sort::Program => sorted_by_program(after),
            Sort::Mesh => sorted_by_mesh(after),
            Sort::DrawState => sorted_by_state(after),
        }
    }
}

/// The submissions that drawing a sequence of objects against a frame
/// produces, in order.
pub open spec fn submissions_of(s: Seq<Object>, frame: u64) -> Seq<Submission> {
    s.map_values(
        |o: Object|
            Submission {
                call: DrawCall { batch: o.batch, slice: o.slice, params: o.params },
                frame,
            },
    )
}

/// Every object's slice stays within the renderer's bound.
pub open spec fn all_in_bound(s: Seq<Object>, bound: u32) -> bool {
    forall|i: int| 0 <= i < s.len() ==> s[i].slice.end <= bound
}

/// What submitting the ordered queue `s` does: with every slice in bound,
/// all of it is submitted in order, the queue is cleared and the call
/// succeeds; otherwise the submissions before the first out-of-bounds object
/// stand, that object's error is returned and the queue keeps its order.
pub open spec fn flush_submits(
    s: Seq<Object>,
    bound: u32,
    submitted_before: Seq<Submission>,
    submitted_after: Seq<Submission>,
    frame: u64,
    queue_after: Seq<Object>,
    r: Result<(), FlushError>,
) -> bool {
    if all_in_bound(s, bound) {
        &&& r == Ok::<(), FlushError>(())
        &&& queue_after == Seq::<Object>::empty()
        &&& submitted_after == submitted_before + submissions_of(s, frame)
    } else {
        let k = submitted_after.len() - submitted_before.len();
        &&& 0 <= k < s.len()
        &&& s[k].slice.end > bound
        &&& (forall|j: int| 0 <= j < k ==> s[j].slice.end <= bound)
        &&& r == Err::<(), FlushError>(FlushError::OutOfBounds(s[k].slice.end))
        &&& queue_after == s
        &&& submitted_after == submitted_before + submissions_of(s.take(k), frame)
    }
}

/// One enqueue moves the compile counter by at most one, and only on a
/// cache miss.
pub proof fn lemma_enqueue_counter(
    tech: Technique,
    cache: CacheModel,
    queue: Seq<Object>,
    ctx: Context,
    mesh: Mesh,
    slice: Slice,
    material: u32,
    view_info: ViewInfo,
)
    requires
        tech.compile_calls < u64::MAX,
    ensures
        ({
            let outcome = spec_enqueue(tech, cache, queue, ctx, mesh, slice, material, view_info);
            &&& tech.compile_calls <= outcome.technique.compile_calls <= tech.compile_calls + 1
            &&& outcome.technique.spec_test(mesh, material) == tech.spec_test(mesh, material)
        }),
{
}

/// Law: the compile path runs at most once per distinct essence per phase
/// lifetime — with a memoizing cache, two enqueues that resolve to the same
/// essence compile at most once between them, and the second one never
/// compiles: it hits the cache.
pub proof fn lemma_compile_at_most_once(
    tech: Technique,
    cache: CacheModel,
    queue: Seq<Object>,
    ctx: Context,
    mesh1: Mesh,
    slice1: Slice,
    mat1: u32,
    view1: ViewInfo,
    mesh2: Mesh,
    slice2: Slice,
    mat2: u32,
    view2: ViewInfo,
    essence: u64,
)
    requires
        cache is Some,
        tech.spec_test(mesh1, mat1) == Some(essence),
        tech.spec_test(mesh2, mat2) == Some(essence),
    ensures
        ({
            let first = spec_enqueue(tech, cache, queue, ctx, mesh1, slice1, mat1, view1);
            let second = spec_enqueue(
                first.technique,
                first.cache,
                first.queue,
                ctx,
                mesh2,
                slice2,
                mat2,
                view2,
            );
            &&& second.technique.compile_calls == first.technique.compile_calls
            &&& second.technique.compile_calls <= tech.compile_calls + 1
        }),
{
    let first = spec_enqueue(tech, cache, queue, ctx, mesh1, slice1, mat1, view1);
    assert(first.technique.spec_test(mesh2, mat2) == Some(essence));
    assert(model_lookup(first.cache, essence) is Some);
}

/// Law: a cached failure is never retried — enqueuing the same failing
/// essence twice yields the same error both times, with the compile path
/// run exactly once, and the second call changes nothing at all.
pub proof fn lemma_failure_not_retried(
    tech: Technique,
    cache: CacheModel,
    queue: Seq<Object>,
    ctx: Context,
    mesh1: Mesh,
    slice1: Slice,
    mat1: u32,
    view1: ViewInfo,
    mesh2: Mesh,
    slice2: Slice,
    mat2: u32,
    view2: ViewInfo,
    essence: u64,
)
    requires
        tech.compile_calls < u64::MAX,
        cache is Some,
        model_lookup(cache, essence) is None,
        tech.spec_test(mesh1, mat1) == Some(essence),
        tech.spec_test(mesh2, mat2) == Some(essence),
        compiled_entry(tech, ctx, mesh1, slice1, mat1, view1) is Err,
    ensures
        ({
            let first = spec_enqueue(tech, cache, queue, ctx, mesh1, slice1, mat1, view1);
            let second = spec_enqueue(
                first.technique,
                first.cache,
                first.queue,
                ctx,
                mesh2,
                slice2,
                mat2,
                view2,
            );
            &&& first.result is Err
            &&& second.result == first.result
            &&& first.technique.compile_calls == tech.compile_calls + 1
            &&& second.technique == first.technique
            &&& second.cache == first.cache
            &&& second.queue == first.queue
        }),
{
    let first = spec_enqueue(tech, cache, queue, ctx, mesh1, slice1, mat1, view1);
    assert(first.technique.spec_test(mesh2, mat2) == Some(essence));
}

/// Law: flushing an empty queue submits nothing and succeeds — every
/// ordering of the empty queue is empty, and the empty sequence is within
/// any bound.
pub proof fn lemma_flush_of_empty(sort: Seq<Sort>, s: Seq<Object>, bound: u32, frame: u64)
    requires
        sort_applied(sort, Seq::<Object>::empty(), s),
    ensures
        s == Seq::<Object>::empty(),
        all_in_bound(s, bound),
        submissions_of(s, frame) == Seq::<Submission>::empty(),
{
    broadcast use vstd::seq_lib::group_to_multiset_ensures;

    if sort.len() > 0 {
        assert(s.to_multiset().len() == s.len());
        assert(Seq::<Object>::empty().to_multiset().len() == 0);
        assert(s =~= Seq::<Object>::empty());
    }
    assert(submissions_of(s, frame) =~= Seq::<Submission>::empty());
}

/// Law: a flush submits the ordered queue as it stands — the i-th
/// submission carries the i-th ordered object's batch, slice and parameter
/// block, so a sorted queue is submitted in sorted order.
pub proof fn lemma_submissions_in_order(s: Seq<Object>, frame: u64)
    ensures
        submissions_of(s, frame).len() == s.len(),
        forall|i: int|
            0 <= i < s.len() ==> #[trigger] submissions_of(s, frame)[i] == (Submission {
                call: DrawCall { batch: s[i].batch, slice: s[i].slice, params: s[i].params },
                frame,
            }),
{
}

/// A phase: a named technique with a cache, a queue of resolved draw objects
/// and an ordered list of sort criteria.
pub struct Phase {
    /// Name of the phase.
    pub name: String,
    /// The technique that tests, compiles and patches.
    pub technique: Technique,
    /// The cache; read and written through `enqueue`.
    pub memory: Cache,
    /// Sort criteria; only the first one is applied per flush.
    pub sort: Vec<Sort>,
    /// The queue; filled by `enqueue`, ordered and drained by `flush`.
    pub queue: draw_queue::Queue<Object>,
}

impl Phase {
    /// The cache's contents: nothing for a phase built with `new`, the
    /// stored entries for one built with `new_cached`.
    pub closed spec fn cache_model(self) -> CacheModel {
        self.memory.model()
    }

    /// The queued draw objects, in order.
    pub closed spec fn queue_view(self) -> Seq<Object> {
        queue_seq(self.queue)
    }

    /// The queue's internal iteration order is in sync; established by the
    /// constructors and preserved by every method.
    pub closed spec fn wf(self) -> bool {
        queue_ready(self.queue)
    }

    /// A phase without memoization: every enqueue recompiles.
    pub fn new(name: &str, tech: Technique) -> (r: Phase)
        ensures
            r.name@ == name@,
            r.technique == tech,
            r.cache_model() is None,
            r.sort@ == Seq::<Sort>::empty(),
            r.queue_view() == Seq::<Object>::empty(),
            r.wf(),
    {
        Phase {
            name: name.to_string(),
            technique: tech,
            memory: Cache::new_null(),
            sort: Vec::new(),
            queue: queue_new(),
        }
    }

    /// A phase with a memoizing cache keyed by the technique essence.
    pub fn new_cached(name: &str, tech: Technique) -> (r: Phase)
        ensures
            r.name@ == name@,
            r.technique == tech,
            r.cache_model() == Some(Map::<u64, CacheEntry>::empty()),
            r.sort@ == Seq::<Sort>::empty(),
            r.queue_view() == Seq::<Object>::empty(),
            r.wf(),
    {
        Phase {
            name: name.to_string(),
            technique: tech,
            memory: Cache::new_memo(),
            sort: Vec::new(),
            queue: queue_new(),
        }
    }

    /// How many draw objects are queued.
    pub fn queue_len(&self) -> (n: usize)
        requires
            self.wf(),
        ensures
            n == self.queue_view().len(),
    {
        queue_len(&self.queue)
    }

    /// How many entries the cache holds.
    pub fn cache_len(&self) -> (n: usize)
        ensures
            n == match self.cache_model() {
                None => 0int,
                Some(m) => m.len() as int,
            },
    {
        self.memory.len()
    }

    /// Check whether it makes sense to draw an entity fragment: whether the
    /// technique applies to its (mesh, material) pair. Pure.
    pub fn test(&self, mesh: &Mesh, material: u32) -> (r: bool)
        ensures
            r == (self.technique.spec_test(*mesh, material) is Some),
    {
        self.technique.test(mesh, material).is_some()
    }

    /// Add one entity fragment to the queue: resolve its draw object from
    /// the cache or by compiling and binding once, exactly as
    /// [`spec_enqueue`] states.
    pub fn enqueue(
        &mut self,
        mesh: &Mesh,
        slice: &Slice,
        material: u32,
        view_info: ViewInfo,
        context: &Context,
    ) -> (r: Result<(), BatchError>)
        requires
            old(self).wf(),
            old(self).technique.compile_calls < u64::MAX,
        ensures
            final(self).wf(),
            final(self).name == old(self).name,
            final(self).sort == old(self).sort,
            ({
                let outcome = spec_enqueue(
                    old(self).technique,
                    old(self).cache_model(),
                    old(self).queue_view(),
                    *context,
                    *mesh,
                    *slice,
                    material,
                    view_info,
                );
                &&& final(self).technique == outcome.technique
                &&& final(self).cache_model() == outcome.cache
                &&& final(self).queue_view() == outcome.queue
                &&& r == outcome.result
            }),
    {
        let essence = match self.technique.test(mesh, material) {
            Some(e) => e,
            None => {
                return Err(BatchError::NotApplicable);
            },
        };
        // Try recalling from memory.
        match self.memory.lookup(essence) {
            Some(Ok(mut o)) => {
                o.slice = *slice;
                self.technique.fix_params(material, &view_info, &mut o.params);
                queue_push(&mut self.queue, o);
                return Ok(());
            },
            Some(Err(e)) => {
                return Err(e);
            },
            None => {},
        }
        // Compile with the technique.
        let depth = view_info.to_depth();
        let compiled = self.technique.compile(essence, view_info);
        let program = compiled.0;
        let mut params = compiled.1;
        let inst_attrs = compiled.2;
        let state = compiled.3;
        self.technique.fix_params(material, &view_info, &mut params);
        let batch_result = match inst_attrs {
            Some(aux) => {
                // Merge the entity's attributes with the instanced ones into
                // a temporary mesh used only for this binding.
                let mut merged: Vec<u64> = Vec::new();
                let mut i: usize = 0;
                while i < mesh.attributes.len()
                    invariant
                        i <= mesh.attributes@.len(),
                        merged@ == mesh.attributes@.take(i as int),
                    decreases mesh.attributes@.len() - i,
                {
                    merged.push(mesh.attributes[i]);
                    proof {
                        assert(mesh.attributes@.take(i + 1).drop_last() =~= mesh
                            .attributes@.take(i as int));
                    }
                    i += 1;
                }
                proof {
                    assert(mesh.attributes@.take(mesh.attributes@.len() as int) =~= mesh
                        .attributes@);
                }
                let mut j: usize = 0;
                while j < aux.len()
                    invariant
                        j <= aux@.len(),
                        merged@ == mesh.attributes@ + aux@.take(j as int),
                    decreases aux@.len() - j,
                {
                    merged.push(aux[j]);
                    proof {
                        assert((mesh.attributes@ + aux@.take(j + 1)).drop_last() =~= mesh
                            .attributes@ + aux@.take(j as int));
                        assert(mesh.attributes@ + aux@.take(j as int) + seq![
                            aux@[j as int],
                        ] =~= mesh.attributes@ + aux@.take(j + 1));
                    }
                    j += 1;
                }
                proof {
                    assert(aux@.take(aux@.len() as int) =~= aux@);
                }
                let temp_mesh = Mesh {
                    topology: mesh.topology,
                    num_vertices: mesh.num_vertices,
                    attributes: merged,
                };
                context.make_batch(program, &temp_mesh, state)
            },
            None => context.make_batch(program, mesh, state),
        };
        // Create the queue object, remember the outcome either way, return.
        let object_result: CacheEntry = match batch_result {
            Ok(b) => Ok(Object { batch: b, params, slice: *slice, depth }),
            Err(e) => Err(e),
        };
        self.memory.store(essence, object_result);
        match object_result {
            Ok(o) => {
                queue_push(&mut self.queue, o);
                Ok(())
            },
            Err(e) => Err(e),
        }
    }

    /// Order the queue by the first configured criterion, submit every
    /// object in order against the frame, stop at the first rejected draw
    /// call, and clear the queue once everything went through — exactly as
    /// [`sort_applied`] and [`flush_submits`] state.
    pub fn flush(&mut self, frame: &Frame, context: &Context, renderer: &mut Renderer) -> (r:
        Result<(), FlushError>)
        requires
            old(self).wf(),
        ensures
            final(self).wf(),
            final(self).name == old(self).name,
            final(self).technique == old(self).technique,
            final(self).cache_model() == old(self).cache_model(),
            final(self).sort == old(self).sort,
            final(renderer).bound == old(renderer).bound,
            exists|s: Seq<Object>|
                {
                    &&& #[trigger] sort_applied(old(self).sort@, old(self).queue_view(), s)
                    &&& flush_submits(
                        s,
                        old(renderer).bound,
                        old(renderer).submitted@,
                        final(renderer).submitted@,
                        frame.id,
                        final(self).queue_view(),
                        r,
                    )
                },
    {
        // Sort the queue by the first criterion, if any.
        if self.sort.len() > 0 {
            let criterion = self.sort[0];
            match criterion {
                Sort::FrontToBack => queue_sort_front_to_back(&mut self.queue),
                Sort::BackToFront => queue_sort_back_to_front(&mut self.queue),
                Sort::Program => queue_sort_by_program(&mut self.queue),
                Sort::Mesh => queue_sort_by_mesh(&mut self.queue),
                Sort::DrawState => queue_sort_by_state(&mut self.queue),
            }
        }
        let objects = queue_collect(&self.queue);
        let ghost s = objects@;
        proof {
            assert(sort_applied(old(self).sort@, old(self).queue_view(), s));
        }
        // Call the draws in order.
        let mut i: usize = 0;
        while i < objects.len()
            invariant
                i <= objects@.len(),
                s == objects@,
                self.wf(),
                queue_seq(self.queue) == s,
                self.name == old(self).name,
                self.technique == old(self).technique,
                self.memory == old(self).memory,
                self.sort == old(self).sort,
                sort_applied(old(self).sort@, old(self).queue_view(), s),
                renderer.bound == old(renderer).bound,
                renderer.submitted@ == old(renderer).submitted@ + submissions_of(
                    s.take(i as int),
                    frame.id,
                ),
                forall|j: int| 0 <= j < i ==> s[j].slice.end <= old(renderer).bound,
            decreases objects@.len() - i,
        {
            let o = &objects[i];
            let call = context.bind(&o.batch, &o.slice, &o.params);
            let drawn = renderer.draw(&call, frame);
            match drawn {
                Ok(_) => {},
                Err(e) => {
                    proof {
                        assert(renderer.submitted@.len() - old(renderer).submitted@.len() == i) by {
                            assert(submissions_of(s.take(i as int), frame.id).len() == i);
                        };
                    }
                    return Err(e);
                },
            }
            proof {
                let f = frame.id;
                assert(submissions_of(s.take(i + 1), f) =~= submissions_of(
                    s.take(i as int),
                    f,
                ).push(
                    Submission {
                        call: DrawCall { batch: s[i as int].batch, slice: s[i as int].slice, params: s[i as int].params },
                        frame: f,
                    },
                ));
            }
            i += 1;
        }
        // Done: the queue's objects are not retained across frames.
        queue_clear(&mut self.queue);
        proof {
            assert(s.take(s.len() as int) =~= s);
        }
        Ok(())
    }
}

} // verus!
