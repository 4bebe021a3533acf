//! Scene-level behaviour: traversal order, culling, report counters and
//! end-to-end draws.

use gfx_scene::device::{BatchError, Context, FlushError, Frame, Renderer, Stream};
use gfx_scene::phase::{Phase, Sort};
use gfx_scene::scene::{
    Camera, Culler, Entity, Error, ErrorPolicy, Fragment, Report, Scene,
};
use gfx_scene::space::{Bound, Mesh, Slice, Transform, World};
use gfx_scene::technique::Technique;

fn at(x: i64, y: i64, z: i64) -> Transform {
    Transform { x, y, z }
}

fn origin_bound() -> Bound {
    Bound { cx: 0, cy: 0, cz: 0, radius: 1 }
}

fn mesh(topology: u32) -> Mesh {
    Mesh { topology, num_vertices: 8, attributes: vec![1, 2] }
}

fn entity(topology: u32, node: usize, material: u32) -> Entity {
    let mut e = Entity::new(mesh(topology), node, origin_bound());
    e.fragments.push(Fragment::new(material, Slice { start: 0, end: 6 }));
    e
}

fn camera() -> Camera<Transform, usize> {
    Camera { name: String::from("main"), projection: at(0, 0, 0), node: 0 }
}

fn stream(bound: u32) -> Stream {
    Stream { renderer: Renderer::new(bound), frame: Frame { id: 1 } }
}

#[test]
fn draw_sorts_ten_entities_front_to_back() {
    // Ten entities at distinct depths, each its own essence, one phase with
    // the front-to-back criterion and a technique that always succeeds.
    let depths: [i64; 10] = [70, 20, 90, 10, 50, 40, 100, 30, 80, 60];
    let mut world = World::new();
    world.transforms.push(at(0, 0, 0));  // camera node
    let mut scene = Scene::new(world);
    for (i, d) in depths.iter().enumerate() {
        scene.world.transforms.push(at(0, 0, *d));
        scene.entities.push(entity(i as u32, i + 1, 1));
    }
    let mut phase = Phase::new_cached("opaque", Technique::new(7, 9));
    phase.sort = vec![Sort::FrontToBack];
    let ctx = Context::new(16);
    let mut out = stream(100);
    let report = scene.draw(&mut phase, &camera(), &ctx, &mut out).unwrap();
    assert_eq!(report.calls_passed, 10);
    assert_eq!(report.calls_failed, 0);
    assert_eq!(report.calls_invisible, 0);
    assert_eq!(report.calls_culled, 0);
    assert_eq!(report.calls_rejected, 0);
    assert_eq!(report.primitives_rendered, 60);
    let submitted: Vec<i64> = out.renderer.submitted.iter().map(|s| s.call.params.mvp.z).collect();
    let mut expected = depths.to_vec();
    expected.sort();
    assert_eq!(submitted, expected);
    // Strictly increasing: all depths are distinct.
    for w in submitted.windows(2) {
        assert!(w[0] < w[1]);
    }
}

#[test]
fn draw_counts_rejected_technique_and_caches_nothing() {
    let mut world = World::new();
    world.transforms.push(at(0, 0, 0));
    world.transforms.push(at(0, 0, 5));
    let mut scene = Scene::new(world);
    scene.entities.push(entity(1, 1, 5));
    // The technique accepts no material at all: its test yields no essence.
    let tech = Technique {
        accept_all: false,
        accepted_materials: Vec::new(),
        program: 7,
        state: 9,
        aux_attributes: Vec::new(),
        compile_calls: 0,
    };
    let mut phase = Phase::new_cached("opaque", tech);
    let ctx = Context::new(16);
    let mut out = stream(100);
    let report = scene.draw(&mut phase, &camera(), &ctx, &mut out).unwrap();
    assert_eq!(report.calls_rejected, 1);
    assert_eq!(report.calls_passed, 0);
    assert_eq!(phase.cache_len(), 0);
    assert_eq!(phase.technique.compile_calls, 0);
    assert!(out.renderer.submitted.is_empty());
}

#[test]
fn draw_with_rejecting_culler_submits_nothing() {
    let mut world = World::new();
    world.transforms.push(at(0, 0, 0));
    let mut scene = Scene::new(world);
    for i in 0..4u32 {
        scene.world.transforms.push(at(0, 0, i as i64));
        scene.entities.push(entity(i, i as usize + 1, 1));
    }
    scene.culler = Culler::Reject;
    let mut phase = Phase::new_cached("opaque", Technique::new(7, 9));
    let ctx = Context::new(16);
    let mut out = stream(100);
    let report = scene.draw(&mut phase, &camera(), &ctx, &mut out).unwrap();
    assert_eq!(report.calls_culled, 4);
    assert_eq!(report.calls_passed, 0);
    assert!(out.renderer.submitted.is_empty());
    assert_eq!(phase.queue_len(), 0);
}

#[test]
fn draw_counts_invisible_entities() {
    let mut world = World::new();
    world.transforms.push(at(0, 0, 0));
    world.transforms.push(at(0, 0, 5));
    let mut scene = Scene::new(world);
    let mut hidden = entity(1, 1, 5);
    hidden.fragments.push(Fragment::new(6, Slice { start: 0, end: 2 }));
    hidden.visible = false;
    scene.entities.push(hidden);
    scene.entities.push(entity(2, 1, 5));
    let mut phase = Phase::new_cached("opaque", Technique::new(7, 9));
    let ctx = Context::new(16);
    let mut out = stream(100);
    let report = scene.draw(&mut phase, &camera(), &ctx, &mut out).unwrap();
    assert_eq!(report.calls_invisible, 2);
    assert_eq!(report.calls_passed, 1);
    assert_eq!(report.get_calls_total(), 3);
}

#[test]
fn draw_frustum_culls_by_depth_range() {
    let mut world = World::new();
    world.transforms.push(at(0, 0, 0));
    let mut scene = Scene::new(world);
    for (i, d) in [5i64, 50, 500].iter().enumerate() {
        scene.world.transforms.push(at(0, 0, *d));
        let mut e = entity(i as u32, i + 1, 1);
        // The bound lives in world space: it carries the entity's position.
        e.bound.cz = *d;
        scene.entities.push(e);
    }
    scene.culler = Culler::Frustum { near: 10, far: 100 };
    let mut phase = Phase::new_cached("opaque", Technique::new(7, 9));
    let ctx = Context::new(16);
    let mut out = stream(100);
    let report = scene.draw(&mut phase, &camera(), &ctx, &mut out).unwrap();
    assert_eq!(report.calls_culled, 2);
    assert_eq!(report.calls_passed, 1);
    assert_eq!(out.renderer.submitted.len(), 1);
    assert_eq!(out.renderer.submitted[0].call.params.mvp.z, 50);
}

#[test]
fn frustum_keeps_bound_touching_the_range() {
    let frustum = Culler::Frustum { near: 10, far: 100 };
    let vp = at(0, 0, 0);
    // Center at 8, radius 2: touches the near plane, stays visible.
    assert!(frustum.test(&Bound { cx: 0, cy: 0, cz: 8, radius: 2 }, &vp));
    // Center at 7, radius 2: fully before the near plane, culled.
    assert!(!frustum.test(&Bound { cx: 0, cy: 0, cz: 7, radius: 2 }, &vp));
    // Center at 102, radius 2: touches the far plane, stays visible.
    assert!(frustum.test(&Bound { cx: 0, cy: 0, cz: 102, radius: 2 }, &vp));
    assert!(!frustum.test(&Bound { cx: 0, cy: 0, cz: 103, radius: 2 }, &vp));
}

#[test]
fn draw_strict_policy_aborts_on_enqueue_failure() {
    let mut world = World::new();
    world.transforms.push(at(0, 0, 0));
    world.transforms.push(at(0, 0, 5));
    let mut scene = Scene::new(world);
    scene.entities.push(entity(1, 1, 5));
    scene.entities.push(entity(2, 1, 5));
    let mut tech = Technique::new(7, 9);
    tech.aux_attributes = vec![10, 11, 12];
    let mut phase = Phase::new_cached("opaque", tech);
    let ctx = Context::new(3);
    let mut out = stream(100);
    let r = scene.draw(&mut phase, &camera(), &ctx, &mut out);
    assert_eq!(r, Err(Error::Batch(BatchError::TooManyAttributes(5))));
    assert!(out.renderer.submitted.is_empty());
}

#[test]
fn draw_lenient_policy_tallies_failures_and_continues() {
    let mut world = World::new();
    world.transforms.push(at(0, 0, 0));
    world.transforms.push(at(0, 0, 5));
    let mut scene = Scene::new(world);
    scene.entities.push(entity(1, 1, 5));
    scene.entities.push(entity(2, 1, 5));
    scene.policy = ErrorPolicy::Lenient;
    let mut tech = Technique::new(7, 9);
    tech.aux_attributes = vec![10, 11, 12];
    let mut phase = Phase::new_cached("opaque", tech);
    let ctx = Context::new(3);
    let mut out = stream(100);
    let report = scene.draw(&mut phase, &camera(), &ctx, &mut out).unwrap();
    assert_eq!(report.calls_failed, 2);
    assert_eq!(report.calls_passed, 0);
    assert_eq!(report.get_calls_total(), 2);
    assert!(out.renderer.submitted.is_empty());
}

#[test]
fn draw_wraps_flush_errors() {
    let mut world = World::new();
    world.transforms.push(at(0, 0, 0));
    world.transforms.push(at(0, 0, 5));
    let mut scene = Scene::new(world);
    scene.entities.push(entity(1, 1, 5));
    let mut phase = Phase::new_cached("opaque", Technique::new(7, 9));
    let ctx = Context::new(16);
    // The renderer accepts nothing: the entity's slice ends at 6 > 2.
    let mut out = stream(2);
    let r = scene.draw(&mut phase, &camera(), &ctx, &mut out);
    assert_eq!(r, Err(Error::Flush(FlushError::OutOfBounds(6))));
}

#[test]
fn draw_report_counters_sum_to_total() {
    let mut world = World::new();
    world.transforms.push(at(0, 0, 0));
    let mut scene = Scene::new(world);
    // One invisible, one culled (far away), one rejected material, two
    // passing.
    for (i, d) in [50i64, 50, 50, 500, 50].iter().enumerate() {
        scene.world.transforms.push(at(0, 0, *d));
        let mut e = entity(i as u32, i + 1, 1);
        e.bound.cz = *d;
        scene.entities.push(e);
    }
    scene.entities[0].visible = false;
    scene.entities[2].fragments[0].material = 9;
    scene.culler = Culler::Frustum { near: 0, far: 100 };
    let mut tech = Technique::new(7, 9);
    tech.accept_all = false;
    tech.accepted_materials = vec![1];
    let mut phase = Phase::new_cached("opaque", tech);
    let ctx = Context::new(16);
    let mut out = stream(100);
    let report = scene.draw(&mut phase, &camera(), &ctx, &mut out).unwrap();
    assert_eq!(report.calls_invisible, 1);
    assert_eq!(report.calls_culled, 1);
    assert_eq!(report.calls_rejected, 1);
    assert_eq!(report.calls_failed, 0);
    assert_eq!(report.calls_passed, 2);
    assert_eq!(report.get_calls_total(), 5);
}

#[test]
fn report_total_is_the_sum_of_the_counters() {
    let report = Report {
        calls_invisible: 3,
        calls_culled: 5,
        calls_rejected: 7,
        calls_failed: 11,
        calls_passed: 13,
        primitives_rendered: 1000,
    };
    assert_eq!(report.get_calls_total(), 39);
    assert_eq!(Report::new().get_calls_total(), 0);
}

#[test]
fn camera_view_projection_inverts_the_camera_node() {
    let mut world = World::new();
    world.transforms.push(at(1, 2, 3));
    let cam = Camera { name: String::from("main"), projection: at(10, 20, 30), node: 0 };
    let vp = cam.get_view_projection(&world);
    assert_eq!(vp, at(9, 18, 27));
}

#[test]
fn transform_algebra_behaves_as_translations() {
    let t = at(1, -2, 3);
    let u = at(10, 20, 30);
    assert_eq!(t.concat(&u), at(11, 18, 33));
    assert_eq!(t.invert(), at(-1, 2, -3));
    assert_eq!(t.concat(&t.invert()), Transform::identity());
}

#[test]
fn slice_prim_count_is_its_extent() {
    assert_eq!(Slice { start: 2, end: 8 }.get_prim_count(), 6);
    assert_eq!(Slice { start: 4, end: 4 }.get_prim_count(), 0);
}

#[test]
fn entity_new_is_visible_with_no_fragments() {
    let e = Entity::new(mesh(1), 0, origin_bound());
    assert!(e.visible);
    assert!(e.fragments.is_empty());
    assert!(e.skeleton.is_none());
    assert_eq!(e.name, "");
    let f = Fragment::new(4, Slice { start: 1, end: 2 });
    assert_eq!(f.material, 4);
    assert_eq!(f.slice, Slice { start: 1, end: 2 });
}

#[test]
fn draw_traverses_fragments_independently() {
    let mut world = World::new();
    world.transforms.push(at(0, 0, 0));
    world.transforms.push(at(0, 0, 5));
    let mut scene = Scene::new(world);
    let mut e = Entity::new(mesh(1), 1, origin_bound());
    e.fragments.push(Fragment::new(1, Slice { start: 0, end: 3 }));
    e.fragments.push(Fragment::new(2, Slice { start: 3, end: 8 }));
    scene.entities.push(e);
    let mut phase = Phase::new_cached("opaque", Technique::new(7, 9));
    let ctx = Context::new(16);
    let mut out = stream(100);
    let report = scene.draw(&mut phase, &camera(), &ctx, &mut out).unwrap();
    assert_eq!(report.calls_passed, 2);
    assert_eq!(report.primitives_rendered, 8);
    assert_eq!(out.renderer.submitted.len(), 2);
    // Two fragments of one entity share the transform but differ in
    // material, so they compile to two essences.
    assert_eq!(phase.technique.compile_calls, 2);
}

#[test]
fn draw_compiles_once_per_essence_across_entities() {
    let mut world = World::new();
    world.transforms.push(at(0, 0, 0));
    let mut scene = Scene::new(world);
    // Five entities share one (topology, material) pair: one compile.
    for i in 0..5usize {
        scene.world.transforms.push(at(0, 0, 10 * i as i64));
        scene.entities.push(entity(1, i + 1, 1));
    }
    let mut phase = Phase::new_cached("opaque", Technique::new(7, 9));
    let ctx = Context::new(16);
    let mut out = stream(100);
    let report = scene.draw(&mut phase, &camera(), &ctx, &mut out).unwrap();
    assert_eq!(report.calls_passed, 5);
    assert_eq!(phase.technique.compile_calls, 1);
    assert_eq!(phase.cache_len(), 1);
    assert_eq!(out.renderer.submitted.len(), 5);
}

#[test]
fn draw_empty_scene_returns_empty_report() {
    let mut world = World::new();
    world.transforms.push(at(0, 0, 0));
    let scene = Scene::new(world);
    let mut phase = Phase::new_cached("opaque", Technique::new(7, 9));
    let ctx = Context::new(16);
    let mut out = stream(100);
    let report = scene.draw(&mut phase, &camera(), &ctx, &mut out).unwrap();
    assert_eq!(report, Report::new());
    assert!(out.renderer.submitted.is_empty());
}

#[test]
fn draw_lenient_policy_keeps_rendering_after_a_failure() {
    let mut world = World::new();
    world.transforms.push(at(0, 0, 0));
    world.transforms.push(at(0, 0, 5));
    let mut scene = Scene::new(world);
    scene.policy = ErrorPolicy::Lenient;
    // The first entity's mesh carries too many attributes to bind; the
    // second one binds fine.
    let mut heavy = entity(1, 1, 5);
    heavy.mesh.attributes = vec![1, 2, 3, 4];
    scene.entities.push(heavy);
    scene.entities.push(entity(2, 1, 5));
    let mut phase = Phase::new_cached("opaque", Technique::new(7, 9));
    let ctx = Context::new(3);
    let mut out = stream(100);
    let report = scene.draw(&mut phase, &camera(), &ctx, &mut out).unwrap();
    assert_eq!(report.calls_failed, 1);
    assert_eq!(report.calls_passed, 1);
    assert_eq!(out.renderer.submitted.len(), 1);
}
