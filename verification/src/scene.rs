//! Scene infrastructure: entities, cameras, culling and the traversal that
//! drives a phase — resolve transforms, build view information, test, cull,
//! enqueue, then flush, tallying every draw call in a report.

use vstd::prelude::*;
use crate::cache::CacheModel;
use crate::device::{BatchError, Context, FlushError, Stream};
use crate::phase::{flush_submits, sort_applied, spec_enqueue, Phase};
use crate::queue::Object;
use crate::space::{Bound, Mesh, NodeId, Slice, Transform, World};
use crate::technique::{Technique, ViewInfo};

verus! {

/// Scene drawing error.
#[derive(Clone, Copy, PartialEq, Eq, Structural, Debug)]
pub enum Error {
    /// Error in creating a batch.
    Batch(BatchError),
    /// Error in sending a batch for drawing.
    Flush(FlushError),
}

/// What the traversal does with a failing enqueue: abort the whole draw call
/// with its error, or tally it and carry on with the other entities.
#[derive(Clone, Copy, PartialEq, Eq, Structural, Debug)]
pub enum ErrorPolicy {
    Strict,
    Lenient,
}

/// Type of the call counters.
pub type Count = u32;

/// Rendering success report: one counter is bumped for every draw call the
/// traversal looks at, so the counters sum to the number of calls.
#[derive(Clone, Copy, PartialEq, Eq, Structural, Debug)]
pub struct Report {
    /// Number of calls in invisible entities.
    pub calls_invisible: Count,
    /// Number of calls that got culled out.
    pub calls_culled: Count,
    /// Number of calls that the phase doesn't apply to.
    pub calls_rejected: Count,
    /// Number of calls that failed to link batches.
    pub calls_failed: Count,
    /// Number of calls issued to the GPU.
    pub calls_passed: Count,
    /// Number of primitives rendered.
    pub primitives_rendered: Count,
}

impl Report {
    /// The sum of the five call counters.
    pub open spec fn spec_calls_total(self) -> int {
        self.calls_invisible + self.calls_culled + self.calls_rejected + self.calls_failed
            + self.calls_passed
    }

    /// Create an empty `Report`.
    pub fn new() -> (r: Report)
        ensures
            r == (Report {
                calls_invisible: 0u32,
                calls_culled: 0u32,
                calls_rejected: 0u32,
                calls_failed: 0u32,
                calls_passed: 0u32,
                primitives_rendered: 0u32,
            }),
    {
        Report {
            calls_rejected: 0,
            calls_failed: 0,
            calls_culled: 0,
            calls_invisible: 0,
            calls_passed: 0,
            primitives_rendered: 0,
        }
    }

    /// Get total number of draw calls: the counters sum to it.
    pub fn get_calls_total(&self) -> (r: Count)
        requires
            self.spec_calls_total() <= u32::MAX,
        ensures
            r == self.spec_calls_total(),
    {
        self.calls_invisible + self.calls_culled + self.calls_rejected + self.calls_failed
            + self.calls_passed
    }
}

/// A fragment of an entity, contains a single draw call.
#[derive(Clone, Copy, PartialEq, Eq, Structural, Debug)]
pub struct Fragment {
    /// Fragment material.
    pub material: u32,
    /// Mesh slice.
    pub slice: Slice,
}

impl Fragment {
    /// Create a new fragment.
    pub fn new(mat: u32, slice: Slice) -> (r: Fragment)
        ensures
            r == (Fragment { material: mat, slice }),
    {
        Fragment { material: mat, slice }
    }
}

/// A simple struct representing an object with a given mesh, bound, and
/// spatial relation to other stuff in the world.
#[derive(Debug)]
pub struct Entity {
    /// Name of the entity.
    pub name: String,
    /// Visibility flag.
    pub visible: bool,
    /// Mesh.
    pub mesh: Mesh,
    /// Node pointer into the world.
    pub node: NodeId,
    /// Skeleton pointer.
    pub skeleton: Option<usize>,
    /// Associated spatial bound of the entity.
    pub bound: Bound,
    /// Vector of fragments, each of a different material.
    pub fragments: Vec<Fragment>,
}

impl Entity {
    /// Create a minimal new `Entity`.
    pub fn new(mesh: Mesh, node: NodeId, bound: Bound) -> (r: Entity)
        ensures
            r.name@ == Seq::<char>::empty(),
            r.visible,
            r.mesh == mesh,
            r.node == node,
            r.skeleton is None,
            r.bound == bound,
            r.fragments@ == Seq::<Fragment>::empty(),
    {
        Entity {
            name: String::new(),
            visible: true,
            mesh,
            node,
            skeleton: None,
            bound,
            fragments: Vec::new(),
        }
    }
}

/// A simple camera with generic projection and spatial relation.
pub struct Camera<P, N> {
    /// Name of the camera.
    pub name: String,
    /// Generic projection.
    pub projection: P,
    /// Generic spatial node.
    pub node: N,
}

impl Camera<Transform, NodeId> {
    /// Get the view-projection transform, given the `World`: the projection
    /// composed with the inverse of the camera node's transform.
    pub fn get_view_projection(&self, world: &World) -> (r: Transform)
        requires
            world.wf(),
            self.node < world.transforms@.len(),
            self.projection.in_range(),
        ensures
            r == self.projection.spec_concat(
                world.transforms@[self.node as int].spec_invert(),
            ),
            r.in_wide_range(),
    {
        let node_inverse = world.get_transform(self.node).invert();
        self.projection.concat(&node_inverse)
    }
}

/// The visibility test over an entity's bound and the current view.
#[derive(Clone, Copy, PartialEq, Eq, Structural, Debug)]
pub enum Culler {
    /// Cull nothing: every entity is visible.
    Accept,
    /// Cull everything: no entity is visible.
    Reject,
    /// Keep entities whose bound intersects the given depth range of the
    /// view-projection.
    Frustum { near: i64, far: i64 },
}

impl Culler {
    /// Whether the entity with this bound stays visible under the given
    /// view-projection.
    pub open spec fn spec_test(self, bound: Bound, view_projection: Transform) -> bool {
        match self {
            Culler::Accept => true,
            Culler::Reject => false,
            Culler::Frustum { near, far } => {
                &&& view_projection.z + bound.cz + bound.radius >= near
                &&& view_projection.z + bound.cz - bound.radius <= far
            },
        }
    }

    /// Test an entity's bound against the view-projection.
    pub fn test(&self, bound: &Bound, view_projection: &Transform) -> (r: bool)
        requires
            bound.wf(),
            view_projection.in_wide_range(),
        ensures
            r == self.spec_test(*bound, *view_projection),
    {
        match self {
            Culler::Accept => true,
            Culler::Reject => false,
            Culler::Frustum { near, far } => {
                let center = view_projection.z + bound.cz;
                center + bound.radius >= *near && center - bound.radius <= *far
            },
        }
    }
}

/// Everything the traversal tracks as it walks the entities: the report so
/// far and the phase's evolving technique, cache and queue, plus the first
/// enqueue failure when the strict policy aborts.
pub struct TraceState {
    pub report: Report,
    pub technique: Technique,
    pub cache: CacheModel,
    pub queue: Seq<Object>,
    pub failure: Option<BatchError>,
}

/// A report with one counter bumped by `n`.
pub open spec fn bump_invisible(r: Report, n: int) -> Report {
    Report { calls_invisible: (r.calls_invisible + n) as u32, ..r }
}

pub open spec fn bump_culled(r: Report, n: int) -> Report {
    Report { calls_culled: (r.calls_culled + n) as u32, ..r }
}

pub open spec fn bump_rejected(r: Report) -> Report {
    Report { calls_rejected: (r.calls_rejected + 1) as u32, ..r }
}

pub open spec fn bump_failed(r: Report) -> Report {
    Report { calls_failed: (r.calls_failed + 1) as u32, ..r }
}

pub open spec fn bump_passed(r: Report, prims: int) -> Report {
    Report {
        calls_passed: (r.calls_passed + 1) as u32,
        primitives_rendered: (r.primitives_rendered + prims) as u32,
        ..r
    }
}

/// The view information built for an entity: model-view-projection,
/// model-view and model transforms.
pub open spec fn entity_view(vp: Transform, inv_cam: Transform, model: Transform) -> ViewInfo {
    ViewInfo {
        mvp: vp.spec_concat(model),
        view: inv_cam.spec_concat(model),
        model,
    }
}

/// What the traversal does with one fragment: skip and count a rejection
/// when the phase does not apply; otherwise enqueue, counting a pass with
/// its primitives or a failure — which under the strict policy becomes the
/// aborting error. A set failure freezes the state.
pub open spec fn frag_step(
    st: TraceState,
    policy: ErrorPolicy,
    ctx: Context,
    mesh: Mesh,
    view_info: ViewInfo,
    frag: Fragment,
) -> TraceState {
    if st.failure is Some {
        st
    } else if st.technique.spec_test(mesh, frag.material) is None {
        TraceState { report: bump_rejected(st.report), ..st }
    } else {
        let outcome = spec_enqueue(
            st.technique,
            st.cache,
            st.queue,
            ctx,
            mesh,
            frag.slice,
            frag.material,
            view_info,
        );
        match outcome.result {
            Ok(_) => TraceState {
                report: bump_passed(st.report, frag.slice.spec_prim_count() as int),
                technique: outcome.technique,
                cache: outcome.cache,
                queue: outcome.queue,
                failure: None,
            },
            Err(e) => TraceState {
                report: bump_failed(st.report),
                technique: outcome.technique,
                cache: outcome.cache,
                queue: outcome.queue,
                failure: if policy is Strict {
                    Some(e)
                } else {
                    None
                },
            },
        }
    }
}

/// The traversal folded over an entity's fragments, from index `i` on.
pub open spec fn frags_fold(
    frags: Seq<Fragment>,
    i: int,
    st: TraceState,
    policy: ErrorPolicy,
    ctx: Context,
    mesh: Mesh,
    view_info: ViewInfo,
) -> TraceState
    decreases frags.len() - i,
{
    if i < 0 || i >= frags.len() {
        st
    } else {
        frags_fold(
            frags,
            i + 1,
            frag_step(st, policy, ctx, mesh, view_info, frags[i]),
            policy,
            ctx,
            mesh,
            view_info,
        )
    }
}

/// What the traversal does with one entity: count all its calls invisible
/// or culled when it is skipped whole, else resolve its transform, build its
/// view information and fold over its fragments.
pub open spec fn entity_step(
    st: TraceState,
    e: Entity,
    transforms: Seq<Transform>,
    culler: Culler,
    policy: ErrorPolicy,
    ctx: Context,
    vp: Transform,
    inv_cam: Transform,
) -> TraceState {
    if st.failure is Some {
        st
    } else if !e.visible {
        TraceState { report: bump_invisible(st.report, e.fragments@.len() as int), ..st }
    } else if !culler.spec_test(e.bound, vp) {
        TraceState { report: bump_culled(st.report, e.fragments@.len() as int), ..st }
    } else {
        frags_fold(
            e.fragments@,
            0,
            st,
            policy,
            ctx,
            e.mesh,
            entity_view(vp, inv_cam, transforms[e.node as int]),
        )
    }
}

/// The traversal folded over the entities, from index `i` on.
pub open spec fn entities_fold(
    entities: Seq<Entity>,
    i: int,
    st: TraceState,
    transforms: Seq<Transform>,
    culler: Culler,
    policy: ErrorPolicy,
    ctx: Context,
    vp: Transform,
    inv_cam: Transform,
) -> TraceState
    decreases entities.len() - i,
{
    if i < 0 || i >= entities.len() {
        st
    } else {
        entities_fold(
            entities,
            i + 1,
            entity_step(st, entities[i], transforms, culler, policy, ctx, vp, inv_cam),
            transforms,
            culler,
            policy,
            ctx,
            vp,
            inv_cam,
        )
    }
}

/// A set failure freezes the fragment fold.
pub proof fn lemma_frags_fold_frozen(
    frags: Seq<Fragment>,
    i: int,
    st: TraceState,
    policy: ErrorPolicy,
    ctx: Context,
    mesh: Mesh,
    view_info: ViewInfo,
)
    requires
        st.failure is Some,
    ensures
        frags_fold(frags, i, st, policy, ctx, mesh, view_info) == st,
    decreases frags.len() - i,
{
    if 0 <= i < frags.len() {
        lemma_frags_fold_frozen(frags, i + 1, st, policy, ctx, mesh, view_info);
    }
}

/// A set failure freezes the entity fold.
pub proof fn lemma_entities_fold_frozen(
    entities: Seq<Entity>,
    i: int,
    st: TraceState,
    transforms: Seq<Transform>,
    culler: Culler,
    policy: ErrorPolicy,
    ctx: Context,
    vp: Transform,
    inv_cam: Transform,
)
    requires
        st.failure is Some,
    ensures
        entities_fold(entities, i, st, transforms, culler, policy, ctx, vp, inv_cam) == st,
    decreases entities.len() - i,
{
    if 0 <= i < entities.len() {
        lemma_entities_fold_frozen(
            entities,
            i + 1,
            st,
            transforms,
            culler,
            policy,
            ctx,
            vp,
            inv_cam,
        );
    }
}

/// Number of fragments — of draw calls — in the entities from index `i` on.
pub open spec fn frags_from(entities: Seq<Entity>, i: int) -> int
    decreases entities.len() - i,
{
    if i < 0 || i >= entities.len() {
        0
    } else {
        entities[i].fragments@.len() + frags_from(entities, i + 1)
    }
}

/// Number of primitives in an entity's fragments from index `j` on.
pub open spec fn prims_in_frags(frags: Seq<Fragment>, j: int) -> int
    decreases frags.len() - j,
{
    if j < 0 || j >= frags.len() {
        0
    } else {
        frags[j].slice.spec_prim_count() + prims_in_frags(frags, j + 1)
    }
}

/// Number of primitives in the entities from index `i` on.
pub open spec fn prims_from(entities: Seq<Entity>, i: int) -> int
    decreases entities.len() - i,
{
    if i < 0 || i >= entities.len() {
        0
    } else {
        prims_in_frags(entities[i].fragments@, 0) + prims_from(entities, i + 1)
    }
}

/// Fragment counts from a suffix are never negative.
pub proof fn lemma_counts_nonneg(entities: Seq<Entity>, i: int)
    ensures
        frags_from(entities, i) >= 0,
        prims_from(entities, i) >= 0,
    decreases entities.len() - i,
{
    if 0 <= i < entities.len() {
        lemma_counts_nonneg(entities, i + 1);
        lemma_prims_in_frags_nonneg(entities[i].fragments@, 0);
    }
}

/// Primitive counts from a suffix are never negative.
pub proof fn lemma_prims_in_frags_nonneg(frags: Seq<Fragment>, j: int)
    ensures
        prims_in_frags(frags, j) >= 0,
    decreases frags.len() - j,
{
    if 0 <= j < frags.len() {
        lemma_prims_in_frags_nonneg(frags, j + 1);
    }
}

/// An example scene type.
pub struct Scene {
    /// A list of entities in the scene.
    pub entities: Vec<Entity>,
    /// A list of cameras.
    pub cameras: Vec<Camera<Transform, NodeId>>,
    /// Spatial world.
    pub world: World,
    /// The visibility test applied per entity.
    pub culler: Culler,
    /// What to do when an enqueue fails.
    pub policy: ErrorPolicy,
}

impl Scene {
    /// Every entity's node resolves in the world, every bound is in range,
    /// and the world's transforms are in range.
    pub open spec fn wf(self) -> bool {
        &&& self.world.wf()
        &&& forall|i: int|
            0 <= i < self.entities@.len() ==> (#[trigger] self.entities@[i]).node
                < self.world.transforms@.len()
        &&& forall|i: int|
            0 <= i < self.entities@.len() ==> (#[trigger] self.entities@[i]).bound.wf()
    }

    /// Create a new empty scene that culls nothing and aborts on the first
    /// enqueue failure.
    pub fn new(world: World) -> (r: Scene)
        ensures
            r.entities@ == Seq::<Entity>::empty(),
            r.cameras@ == Seq::<Camera<Transform, NodeId>>::empty(),
            r.world == world,
            r.culler == Culler::Accept,
            r.policy == ErrorPolicy::Strict,
    {
        Scene {
            entities: Vec::new(),
            cameras: Vec::new(),
            world,
            culler: Culler::Accept,
            policy: ErrorPolicy::Strict,
        }
    }

    /// Draw the contents of the scene with a specific phase into a stream:
    /// walk the entities in insertion order, count every call as invisible,
    /// culled, rejected, failed or passed exactly as [`entities_fold`]
    /// states, then flush the phase once. A failing enqueue aborts the call
    /// under the strict policy; a failing flush aborts it always; otherwise
    /// the accumulated report is returned.
    pub fn draw(
        &self,
        phase: &mut Phase,
        camera: &Camera<Transform, NodeId>,
        context: &Context,
        stream: &mut Stream,
    ) -> (r: Result<Report, Error>)
        requires
            self.wf(),
            camera.node < self.world.transforms@.len(),
            camera.projection.in_range(),
            old(phase).wf(),
            old(phase).technique.compile_calls + frags_from(self.entities@, 0) <= u64::MAX,
            frags_from(self.entities@, 0) <= u32::MAX,
            prims_from(self.entities@, 0) <= u32::MAX,
        ensures
            final(phase).wf(),
            final(phase).name == old(phase).name,
            final(phase).sort == old(phase).sort,
            final(stream).frame == old(stream).frame,
            final(stream).renderer.bound == old(stream).renderer.bound,
            ({
                let inv_cam = self.world.transforms@[camera.node as int].spec_invert();
                let vp = camera.projection.spec_concat(inv_cam);
                let st = entities_fold(
                    self.entities@,
                    0,
                    TraceState {
                        report: Report {
                            calls_invisible: 0u32,
                            calls_culled: 0u32,
                            calls_rejected: 0u32,
                            calls_failed: 0u32,
                            calls_passed: 0u32,
                            primitives_rendered: 0u32,
                        },
                        technique: old(phase).technique,
                        cache: old(phase).cache_model(),
                        queue: old(phase).queue_view(),
                        failure: None,
                    },
                    self.world.transforms@,
                    self.culler,
                    self.policy,
                    *context,
                    vp,
                    inv_cam,
                );
                &&& final(phase).technique == st.technique
                &&& final(phase).cache_model() == st.cache
                &&& match st.failure {
                    Some(e) => {
                        &&& r == Err::<Report, Error>(Error::Batch(e))
                        &&& final(phase).queue_view() == st.queue
                        &&& final(stream).renderer == old(stream).renderer
                    },
                    None => exists|s: Seq<Object>, fr: Result<(), FlushError>|
                        {
                            &&& sort_applied(old(phase).sort@, st.queue, s)
                            &&& #[trigger] flush_submits(
                                s,
                                old(stream).renderer.bound,
                                old(stream).renderer.submitted@,
                                final(stream).renderer.submitted@,
                                old(stream).frame.id,
                                final(phase).queue_view(),
                                fr,
                            )
                            &&& r == match fr {
                                Ok(_) => Ok::<Report, Error>(st.report),
                                Err(fe) => Err::<Report, Error>(Error::Flush(fe)),
                            }
                        },
                }
            }),
    {
        let inv_cam = self.world.get_transform(camera.node).invert();
        let vp = camera.projection.concat(&inv_cam);
        let mut report = Report::new();
        let ghost transforms = self.world.transforms@;
        let ghost st0 = TraceState {
            report,
            technique: phase.technique,
            cache: phase.cache_model(),
            queue: phase.queue_view(),
            failure: None,
        };
        let ghost full = entities_fold(
            self.entities@,
            0,
            st0,
            transforms,
            self.culler,
            self.policy,
            *context,
            vp,
            inv_cam,
        );
        let mut ei: usize = 0;
        while ei < self.entities.len()
            invariant
                self.wf(),
                ei <= self.entities@.len(),
                camera.node < self.world.transforms@.len(),
                transforms == self.world.transforms@,
                inv_cam == self.world.transforms@[camera.node as int].spec_invert(),
                inv_cam.in_range(),
                vp == camera.projection.spec_concat(inv_cam),
                vp.in_wide_range(),
                phase.wf(),
                phase.name == old(phase).name,
                phase.sort == old(phase).sort,
                *stream == *old(stream),
                full == entities_fold(
                    self.entities@,
                    0,
                    TraceState {
                        report: Report {
                            calls_invisible: 0u32,
                            calls_culled: 0u32,
                            calls_rejected: 0u32,
                            calls_failed: 0u32,
                            calls_passed: 0u32,
                            primitives_rendered: 0u32,
                        },
                        technique: old(phase).technique,
                        cache: old(phase).cache_model(),
                        queue: old(phase).queue_view(),
                        failure: None,
                    },
                    transforms,
                    self.culler,
                    self.policy,
                    *context,
                    vp,
                    inv_cam,
                ),
                phase.technique.compile_calls + frags_from(self.entities@, ei as int)
                    <= u64::MAX,
                report.spec_calls_total() + frags_from(self.entities@, ei as int) <= u32::MAX,
                report.primitives_rendered + prims_from(self.entities@, ei as int)
                    <= u32::MAX,
                entities_fold(
                    self.entities@,
                    ei as int,
                    TraceState {
                        report,
                        technique: phase.technique,
                        cache: phase.cache_model(),
                        queue: phase.queue_view(),
                        failure: None,
                    },
                    transforms,
                    self.culler,
                    self.policy,
                    *context,
                    vp,
                    inv_cam,
                ) == full,
            decreases self.entities@.len() - ei,
        {
            let ghost st_entity = TraceState {
                report,
                technique: phase.technique,
                cache: phase.cache_model(),
                queue: phase.queue_view(),
                failure: None,
            };
            proof {
                lemma_counts_nonneg(self.entities@, ei + 1);
                lemma_prims_in_frags_nonneg(self.entities@[ei as int].fragments@, 0);
            }
            let entity = &self.entities[ei];
            let frag_total = entity.fragments.len();
            if !entity.visible {
                report.calls_invisible = report.calls_invisible + frag_total as u32;
            } else if !self.culler.test(&entity.bound, &vp) {
                report.calls_culled = report.calls_culled + frag_total as u32;
            } else {
                let model = self.world.get_transform(entity.node);
                let mvp = vp.concat(&model);
                let view = inv_cam.concat(&model);
                let view_info = ViewInfo::new(mvp, view, model);
                let ghost frags = entity.fragments@;
                let mut fj: usize = 0;
                while fj < entity.fragments.len()
                    invariant
                        fj <= frags.len(),
                        ei < self.entities@.len(),
                        camera.node < self.world.transforms@.len(),
                        *entity == self.entities@[ei as int],
                        frags == self.entities@[ei as int].fragments@,
                        transforms == self.world.transforms@,
                        inv_cam == self.world.transforms@[camera.node as int].spec_invert(),
                        vp == camera.projection.spec_concat(inv_cam),
                        self.entities@[ei as int].visible,
                        self.culler.spec_test(self.entities@[ei as int].bound, vp),
                        st_entity.failure is None,
                        entities_fold(
                            self.entities@,
                            ei as int,
                            st_entity,
                            transforms,
                            self.culler,
                            self.policy,
                            *context,
                            vp,
                            inv_cam,
                        ) == full,
                        self.wf(),
                        phase.wf(),
                        phase.name == old(phase).name,
                        phase.sort == old(phase).sort,
                        *stream == *old(stream),
                        full == entities_fold(
                            self.entities@,
                            0,
                            TraceState {
                                report: Report {
                                    calls_invisible: 0u32,
                                    calls_culled: 0u32,
                                    calls_rejected: 0u32,
                                    calls_failed: 0u32,
                                    calls_passed: 0u32,
                                    primitives_rendered: 0u32,
                                },
                                technique: old(phase).technique,
                                cache: old(phase).cache_model(),
                                queue: old(phase).queue_view(),
                                failure: None,
                            },
                            transforms,
                            self.culler,
                            self.policy,
                            *context,
                            vp,
                            inv_cam,
                        ),

                        phase.technique.compile_calls + (frags.len() - fj) + frags_from(
                            self.entities@,
                            ei + 1,
                        ) <= u64::MAX,
                        report.spec_calls_total() + (frags.len() - fj) + frags_from(
                            self.entities@,
                            ei + 1,
                        ) <= u32::MAX,
                        report.primitives_rendered + prims_in_frags(frags, fj as int)
                            + prims_from(self.entities@, ei + 1) <= u32::MAX,
                        view_info == entity_view(
                            vp,
                            inv_cam,
                            transforms[self.entities@[ei as int].node as int],
                        ),
                        frags_fold(
                            frags,
                            fj as int,
                            TraceState {
                                report,
                                technique: phase.technique,
                                cache: phase.cache_model(),
                                queue: phase.queue_view(),
                                failure: None,
                            },
                            self.policy,
                            *context,
                            self.entities@[ei as int].mesh,
                            view_info,
                        ) == frags_fold(
                            frags,
                            0,
                            st_entity,
                            self.policy,
                            *context,
                            self.entities@[ei as int].mesh,
                            view_info,
                        ),
                    decreases frags.len() - fj,
                {
                    proof {
                        lemma_counts_nonneg(self.entities@, ei + 1);
                        lemma_prims_in_frags_nonneg(frags, fj + 1);
                    }
                    let frag = &entity.fragments[fj];
                    if !phase.test(&entity.mesh, frag.material) {
                        report.calls_rejected = report.calls_rejected + 1;
                    } else {
                        let enq = phase.enqueue(
                            &entity.mesh,
                            &frag.slice,
                            frag.material,
                            view_info,
                            context,
                        );
                        match enq {
                            Ok(_) => {
                                report.calls_passed = report.calls_passed + 1;
                                report.primitives_rendered = report.primitives_rendered
                                    + frag.slice.get_prim_count();
                            },
                            Err(e) => {
                                report.calls_failed = report.calls_failed + 1;
                                match self.policy {
                                    ErrorPolicy::Strict => {
                                        proof {
                                            let st_fail = TraceState {
                                                report,
                                                technique: phase.technique,
                                                cache: phase.cache_model(),
                                                queue: phase.queue_view(),
                                                failure: Some(e),
                                            };
                                            lemma_frags_fold_frozen(
                                                frags,
                                                fj + 1,
                                                st_fail,
                                                self.policy,
                                                *context,
                                                self.entities@[ei as int].mesh,
                                                view_info,
                                            );
                                            lemma_entities_fold_frozen(
                                                self.entities@,
                                                ei + 1,
                                                st_fail,
                                                transforms,
                                                self.culler,
                                                self.policy,
                                                *context,
                                                vp,
                                                inv_cam,
                                            );
                                            let e_cur = self.entities@[ei as int];
                                            assert(frags_fold(
                                                frags,
                                                0,
                                                st_entity,
                                                self.policy,
                                                *context,
                                                e_cur.mesh,
                                                view_info,
                                            ) == st_fail);
                                            assert(entity_step(
                                                st_entity,
                                                e_cur,
                                                transforms,
                                                self.culler,
                                                self.policy,
                                                *context,
                                                vp,
                                                inv_cam,
                                            ) == st_fail);
                                            assert(full == st_fail);
                                        }
                                        return Err(Error::Batch(e));
                                    },
                                    ErrorPolicy::Lenient => {},
                                }
                            },
                        }
                    }
                    fj += 1;
                }
            }
            ei += 1;
        }
        // All entities seen: sort and submit the accumulated queue once.
        proof {
            assert(full == TraceState {
                report,
                technique: phase.technique,
                cache: phase.cache_model(),
                queue: phase.queue_view(),
                failure: None,
            });
        }
        let ghost pre_sort = phase.sort@;
        let ghost pre_queue = phase.queue_view();
        let ghost pre_submitted = stream.renderer.submitted@;
        let ghost pre_bound = stream.renderer.bound;
        let ghost pre_frame = stream.frame.id;
        let flushed = phase.flush(&stream.frame, context, &mut stream.renderer);
        proof {
            let s = choose|s: Seq<Object>|
                {
                    &&& #[trigger] sort_applied(pre_sort, pre_queue, s)
                    &&& flush_submits(
                        s,
                        pre_bound,
                        pre_submitted,
                        stream.renderer.submitted@,
                        pre_frame,
                        phase.queue_view(),
                        flushed,
                    )
                };
            assert(flush_submits(
                s,
                pre_bound,
                pre_submitted,
                stream.renderer.submitted@,
                pre_frame,
                phase.queue_view(),
                flushed,
            ));
        }
        match flushed {
            Ok(_) => Ok(report),
            Err(e) => Err(Error::Flush(e)),
        }
    }
}

} // verus!
