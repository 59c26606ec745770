use bevy::input::keyboard::KeyCode;
use bevy::input::Input;
use orbit_scene::keyboard::toggle_camera_orbit;
use orbit_scene::orbit::{CameraController, OrbitState};
use orbit_scene::geometry::Point3;
use orbit_scene::scene::{camera, cube, ground_plane, point_light, setup};
use orbit_scene::world::{LookupError, World};

fn started() -> World {
    let mut world = World::new();
    setup(&mut world);
    world
}

fn enabled(world: &World) -> bool {
    let id = world.single_controller().expect("one controller");
    world.get(id).expect("entity").controller.expect("controller").enabled
}

/// One frame in which `key` goes up, after a frame in which it went down.
fn release(input: &mut Input<KeyCode>, key: KeyCode) {
    input.clear();
    input.press(key);
    input.clear();
    input.release(key);
}

#[test]
fn controller_starts_enabled() {
    let world = started();
    assert!(enabled(&world));
    assert_eq!(world.single_controller(), Ok(3));
}

#[test]
fn release_flips_and_second_release_flips_back() {
    let mut world = started();
    let mut input = Input::<KeyCode>::default();
    release(&mut input, KeyCode::Escape);
    assert_eq!(toggle_camera_orbit(&mut world, &input), Ok(Some(3)));
    assert!(!enabled(&world));
    release(&mut input, KeyCode::Escape);
    assert_eq!(toggle_camera_orbit(&mut world, &input), Ok(Some(3)));
    assert!(enabled(&world));
}

#[test]
fn press_alone_changes_nothing() {
    let mut world = started();
    let mut input = Input::<KeyCode>::default();
    input.press(KeyCode::Escape);
    assert!(input.just_pressed(KeyCode::Escape));
    assert_eq!(toggle_camera_orbit(&mut world, &input), Ok(None));
    assert!(enabled(&world));
    assert_eq!(world, started());
}

#[test]
fn holding_the_key_changes_nothing() {
    let mut world = started();
    let mut input = Input::<KeyCode>::default();
    input.press(KeyCode::Escape);
    for _ in 0..50 {
        input.clear();
        assert!(input.pressed(KeyCode::Escape));
        assert_eq!(toggle_camera_orbit(&mut world, &input), Ok(None));
        assert!(enabled(&world));
    }
    input.clear();
    input.release(KeyCode::Escape);
    assert_eq!(toggle_camera_orbit(&mut world, &input), Ok(Some(3)));
    assert!(!enabled(&world));
}

#[test]
fn release_is_seen_for_one_tick_only() {
    let mut world = started();
    let mut input = Input::<KeyCode>::default();
    release(&mut input, KeyCode::Escape);
    assert_eq!(toggle_camera_orbit(&mut world, &input), Ok(Some(3)));
    input.clear();
    assert_eq!(toggle_camera_orbit(&mut world, &input), Ok(None));
    assert!(!enabled(&world));
}

#[test]
fn idle_ticks_leave_the_flag_alone() {
    let mut world = started();
    let mut input = Input::<KeyCode>::default();
    for _ in 0..1000 {
        input.clear();
        assert_eq!(toggle_camera_orbit(&mut world, &input), Ok(None));
    }
    assert_eq!(world, started());
    release(&mut input, KeyCode::Escape);
    assert_eq!(toggle_camera_orbit(&mut world, &input), Ok(Some(3)));
    let flipped = world.clone();
    for _ in 0..1000 {
        input.clear();
        assert_eq!(toggle_camera_orbit(&mut world, &input), Ok(None));
    }
    assert_eq!(world, flipped);
    assert!(!enabled(&world));
}

#[test]
fn release_of_another_key_changes_nothing() {
    let mut world = started();
    let mut input = Input::<KeyCode>::default();
    release(&mut input, KeyCode::W);
    assert!(input.just_released(KeyCode::W));
    assert_eq!(toggle_camera_orbit(&mut world, &input), Ok(None));
    assert!(enabled(&world));
}

#[test]
fn toggle_touches_the_flag_only() {
    let mut world = started();
    let mut input = Input::<KeyCode>::default();
    release(&mut input, KeyCode::Escape);
    assert_eq!(toggle_camera_orbit(&mut world, &input), Ok(Some(3)));
    assert_eq!(world.len(), 4);
    assert_eq!(world.get(0), Some(ground_plane()));
    assert_eq!(world.get(1), Some(cube()));
    assert_eq!(world.get(2), Some(point_light()));
    let mut expected = camera();
    expected.controller = Some(CameraController {
        eye: Point3 { x: -20, y: 50, z: 50 },
        target: Point3 { x: 0, y: 0, z: 0 },
        up: Point3 { x: 0, y: 10, z: 0 },
        enabled: false,
    });
    assert_eq!(world.get(3), Some(expected));
}

#[test]
fn second_controller_makes_the_lookup_fail() {
    let mut world = started();
    assert_eq!(world.spawn(camera()), 4);
    let before = world.clone();
    assert_eq!(world.count_controllers(), 2);
    assert_eq!(world.single_controller(), Err(LookupError::MultipleControllers));
    let mut input = Input::<KeyCode>::default();
    release(&mut input, KeyCode::Escape);
    assert_eq!(toggle_camera_orbit(&mut world, &input), Err(LookupError::MultipleControllers));
    assert_eq!(world, before);
    assert_eq!(world.toggle_on_release(true), Err(LookupError::MultipleControllers));
    assert_eq!(world, before);
}

#[test]
fn second_controller_is_not_looked_up_without_a_release() {
    let mut world = started();
    world.spawn(camera());
    let before = world.clone();
    let input = Input::<KeyCode>::default();
    assert_eq!(toggle_camera_orbit(&mut world, &input), Ok(None));
    assert_eq!(world.toggle_on_release(false), Ok(None));
    assert_eq!(world, before);
}

#[test]
fn missing_controller_makes_the_lookup_fail() {
    let mut world = World::new();
    world.spawn(ground_plane());
    world.spawn(cube());
    let before = world.clone();
    assert_eq!(world.single_controller(), Err(LookupError::NoController));
    let mut input = Input::<KeyCode>::default();
    release(&mut input, KeyCode::Escape);
    assert_eq!(toggle_camera_orbit(&mut world, &input), Err(LookupError::NoController));
    assert_eq!(world, before);
    let mut empty = World::new();
    assert_eq!(empty.toggle_on_release(true), Err(LookupError::NoController));
    assert_eq!(empty.toggle_on_release(false), Ok(None));
}

#[test]
fn controller_is_found_wherever_it_stands() {
    let mut world = World::new();
    world.spawn(camera());
    world.spawn(cube());
    world.spawn(point_light());
    assert_eq!(world.single_controller(), Ok(0));
    assert_eq!(world.toggle_on_release(true), Ok(Some(0)));
    assert!(!enabled(&world));
    assert_eq!(world.get(1), Some(cube()));
    assert_eq!(world.toggle_on_release(true), Ok(Some(0)));
    assert_eq!(world.get(0), Some(camera()));
}

#[test]
fn end_to_end() {
    let mut world = started();
    let mut input = Input::<KeyCode>::default();
    assert!(enabled(&world));

    release(&mut input, KeyCode::Escape);
    assert_eq!(toggle_camera_orbit(&mut world, &input), Ok(Some(3)));
    assert!(!enabled(&world));

    release(&mut input, KeyCode::Escape);
    assert_eq!(toggle_camera_orbit(&mut world, &input), Ok(Some(3)));
    assert!(enabled(&world));

    input.clear();
    input.press(KeyCode::W);
    assert_eq!(toggle_camera_orbit(&mut world, &input), Ok(None));
    assert!(enabled(&world));
}

#[test]
fn toggle_keeps_the_census() {
    let mut world = started();
    assert_eq!(world.toggle_on_release(true), Ok(Some(3)));
    assert_eq!(world.len(), 4);
    assert_eq!(world.count_controllers(), 1);
    assert_eq!(world.count_kind(orbit_scene::entity::EntityKind::Camera), 1);
    assert_eq!(world.count_kind(orbit_scene::entity::EntityKind::Cube), 1);
    assert_eq!(world.toggle_on_release(true), Ok(Some(3)));
    assert_eq!(world, started());
}

#[test]
fn state_machine_steps() {
    assert_eq!(OrbitState::initial(), OrbitState::OrbitEnabled);
    assert_eq!(OrbitState::OrbitEnabled.next(true), OrbitState::OrbitDisabled);
    assert_eq!(OrbitState::OrbitDisabled.next(true), OrbitState::OrbitEnabled);
    assert_eq!(OrbitState::OrbitEnabled.next(false), OrbitState::OrbitEnabled);
    assert_eq!(OrbitState::OrbitDisabled.next(false), OrbitState::OrbitDisabled);
    assert!(OrbitState::OrbitEnabled.is_enabled());
    assert!(!OrbitState::OrbitDisabled.is_enabled());
    assert_eq!(OrbitState::from_flag(true), OrbitState::OrbitEnabled);
    assert_eq!(OrbitState::from_flag(false), OrbitState::OrbitDisabled);
}

#[test]
fn state_machine_follows_the_parity_of_releases() {
    let ticks = [false, true, false, false, true, true, false];
    let mut state = OrbitState::initial();
    let mut releases = 0;
    for released in ticks {
        state = state.next(released);
        if released {
            releases += 1;
        }
        assert_eq!(state.is_enabled(), releases % 2 == 0);
    }
    assert_eq!(state, OrbitState::OrbitDisabled);
}

#[test]
fn controller_by_handle() {
    let eye = Point3::new(-20, 50, 50);
    let mut controller = CameraController::new(eye, Point3::origin(), Point3::unit_y());
    assert!(controller.enabled);
    assert_eq!(controller.state(), OrbitState::OrbitEnabled);
    controller.toggle_on_release(false);
    assert!(controller.enabled);
    controller.toggle_on_release(true);
    assert!(!controller.enabled);
    assert_eq!(controller.state(), OrbitState::OrbitDisabled);
    assert_eq!(controller.eye, eye);
    assert_eq!(controller.target, Point3::origin());
    assert_eq!(controller.up, Point3::unit_y());
    controller.toggle_on_release(true);
    assert_eq!(controller, CameraController::new(eye, Point3::origin(), Point3::unit_y()));
}
