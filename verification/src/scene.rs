//! The scene that is built once at startup: a ground plane, a cube on it, a
//! light above, and the camera that looks at them.

use vstd::prelude::*;
use crate::entity::{Body, Entity, EntityKind, Tags};
use crate::geometry::{Point3, Rgb};
use crate::orbit::CameraController;
use crate::orbit::OrbitState;
use crate::world::{
    controller_count, controller_index, is_only_controller, kind_count,
    lemma_only_controller_is_unique, orbit_enabled, World,
};

verus! {

/// The ground: a green square of side 5, lying at the origin.
pub open spec fn spec_ground_plane() -> Entity {
    Entity {
        body: Body::Plane { side: 50 },
        color: Some(Rgb { red: 3, green: 5, blue: 3 }),
        position: Point3 { x: 0, y: 0, z: 0 },
        tags: Tags::spec_none(),
        controller: None,
    }
}

/// The cube: sand coloured, of size 1, resting on the ground, open to
/// selection and dragging.
pub open spec fn spec_cube() -> Entity {
    Entity {
        body: Body::Cube { size: 10 },
        color: Some(Rgb { red: 8, green: 7, blue: 6 }),
        position: Point3 { x: 0, y: 5, z: 0 },
        tags: Tags::spec_interactive(),
        controller: None,
    }
}

/// The light: intensity 1500, casting shadows, at (4, 8, 4).
pub open spec fn spec_point_light() -> Entity {
    Entity {
        body: Body::PointLight { intensity: 15000, shadows_enabled: true },
        color: None,
        position: Point3 { x: 40, y: 80, z: 40 },
        tags: Tags::spec_none(),
        controller: None,
    }
}

/// The controller that the camera starts with: steering to (-2, 5, 5),
/// looking at the origin, enabled.
pub open spec fn spec_camera_controller() -> CameraController {
    CameraController {
        eye: Point3 { x: -20i32, y: 50, z: 50 },
        target: Point3 { x: 0, y: 0, z: 0 },
        up: Point3 { x: 0, y: 10, z: 0 },
        enabled: true,
    }
}

/// The camera: at (-2, 2.5, 5), looking at the origin with the vertical axis
/// upright, the source of pick rays, and under the camera controller.
pub open spec fn spec_camera() -> Entity {
    Entity {
        body: Body::Camera {
            look_at: Point3 { x: 0, y: 0, z: 0 },
            up: Point3 { x: 0, y: 10, z: 0 },
        },
        color: None,
        position: Point3 { x: -20i32, y: 25, z: 50 },
        tags: Tags::spec_viewpoint(),
        controller: Some(spec_camera_controller()),
    }
}

/// The whole scene, in the order in which it is spawned.
pub open spec fn initial_scene() -> Seq<Entity> {
    Seq::<Entity>::empty().push(spec_ground_plane()).push(spec_cube()).push(
        spec_point_light(),
    ).push(spec_camera())
}

/// The ground plane.
pub fn ground_plane() -> (e: Entity)
    ensures
        e == spec_ground_plane(),
{
    Entity {
        body: Body::Plane { side: 50 },
        color: Some(Rgb { red: 3, green: 5, blue: 3 }),
        position: Point3::origin(),
        tags: Tags::none(),
        controller: None,
    }
}

/// The cube.
pub fn cube() -> (e: Entity)
    ensures
        e == spec_cube(),
{
    Entity {
        body: Body::Cube { size: 10 },
        color: Some(Rgb { red: 8, green: 7, blue: 6 }),
        position: Point3::new(0, 5, 0),
        tags: Tags::interactive(),
        controller: None,
    }
}

/// The point light.
pub fn point_light() -> (e: Entity)
    ensures
        e == spec_point_light(),
{
    Entity {
        body: Body::PointLight { intensity: 15000, shadows_enabled: true },
        color: None,
        position: Point3::new(40, 80, 40),
        tags: Tags::none(),
        controller: None,
    }
}

/// The camera with its controller.
pub fn camera() -> (e: Entity)
    ensures
        e == spec_camera(),
{
    let controller: CameraController = CameraController::new(
        Point3::new(-20, 50, 50),
        Point3::new(0, 0, 0),
        Point3::unit_y(),
    );
    Entity {
        body: Body::Camera { look_at: Point3::origin(), up: Point3::unit_y() },
        color: None,
        position: Point3::new(-20, 25, 50),
        tags: Tags::viewpoint(),
        controller: Some(controller),
    }
}

/// Spawns the scene: plane, cube, light and camera, in this order, after
/// whatever the world already holds.
pub fn setup(world: &mut World)
    ensures
        final(world)@ == old(world)@ + initial_scene(),
{
    world.spawn(ground_plane());
    world.spawn(cube());
    world.spawn(point_light());
    world.spawn(camera());
    assert(world@ =~= old(world)@ + initial_scene());
}

/// The scene holds exactly one plane, one cube, one light and one camera,
/// and nothing else.
pub proof fn lemma_initial_scene_census()
    ensures
        initial_scene().len() == 4,
        kind_count(initial_scene(), EntityKind::Plane) == 1,
        kind_count(initial_scene(), EntityKind::Cube) == 1,
        kind_count(initial_scene(), EntityKind::Light) == 1,
        kind_count(initial_scene(), EntityKind::Camera) == 1,
        initial_scene()[0] == spec_ground_plane(),
        initial_scene()[1] == spec_cube(),
        initial_scene()[2] == spec_point_light(),
        initial_scene()[3] == spec_camera(),
{
    let s0 = Seq::<Entity>::empty();
    let s1 = s0.push(spec_ground_plane());
    let s2 = s1.push(spec_cube());
    let s3 = s2.push(spec_point_light());
    let s4 = s3.push(spec_camera());
    assert(s1.drop_last() =~= s0);
    assert(s2.drop_last() =~= s1);
    assert(s3.drop_last() =~= s2);
    assert(s4.drop_last() =~= s3);
    assert forall|k: EntityKind| #[trigger] kind_count(s0, k) == 0 by {}
    assert forall|k: EntityKind| #[trigger] kind_count(s1, k) == kind_count(s0, k) + (if k
        == EntityKind::Plane {
        1nat
    } else {
        0nat
    }) by {}
    assert forall|k: EntityKind| #[trigger] kind_count(s2, k) == kind_count(s1, k) + (if k
        == EntityKind::Cube {
        1nat
    } else {
        0nat
    }) by {}
    assert forall|k: EntityKind| #[trigger] kind_count(s3, k) == kind_count(s2, k) + (if k
        == EntityKind::Light {
        1nat
    } else {
        0nat
    }) by {}
    assert forall|k: EntityKind| #[trigger] kind_count(s4, k) == kind_count(s3, k) + (if k
        == EntityKind::Camera {
        1nat
    } else {
        0nat
    }) by {}
}

/// In the scene the cube is the one entity open to selection and dragging,
/// the camera is the one source of pick rays, and the plane and the light
/// carry no capability and no controller.
pub proof fn lemma_initial_scene_tags()
    ensures
        spec_cube().tags.pickable && spec_cube().tags.gizmo_transformable,
        !spec_cube().tags.picking_source && !spec_cube().tags.gizmo_pick_source,
        spec_cube().controller is None,
        spec_camera().tags.picking_source && spec_camera().tags.gizmo_pick_source,
        !spec_camera().tags.pickable && !spec_camera().tags.gizmo_transformable,
        spec_camera().controller is Some,
        !spec_ground_plane().tags.any() && spec_ground_plane().controller is None,
        !spec_point_light().tags.any() && spec_point_light().controller is None,
{
}

/// The scene holds exactly one camera controller, on the camera, and it
/// starts enabled: the lookup of the toggle handler is unambiguous.
pub proof fn lemma_initial_scene_controller()
    ensures
        controller_count(initial_scene()) == 1,
        is_only_controller(initial_scene(), 3),
        controller_index(initial_scene()) == 3,
        initial_scene()[3].controller == Some(spec_camera_controller()),
        orbit_enabled(initial_scene()),
        OrbitState::of_flag(orbit_enabled(initial_scene())) == OrbitState::OrbitEnabled,
{
    let s0 = Seq::<Entity>::empty();
    let s1 = s0.push(spec_ground_plane());
    let s2 = s1.push(spec_cube());
    let s3 = s2.push(spec_point_light());
    let s4 = s3.push(spec_camera());
    assert(s1.drop_last() =~= s0);
    assert(s2.drop_last() =~= s1);
    assert(s3.drop_last() =~= s2);
    assert(s4.drop_last() =~= s3);
    assert(controller_count(s0) == 0);
    assert(controller_count(s1) == 0);
    assert(controller_count(s2) == 0);
    assert(controller_count(s3) == 0);
    assert(controller_count(s4) == 1);
    assert(is_only_controller(s4, 3));
    lemma_only_controller_is_unique(s4);
}

} // verus!
