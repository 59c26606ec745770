//! The keyboard as the engine reports it, and the toggle handler that reads
//! it.

use vstd::prelude::*;
use std::hash::Hash;
use bevy::input::keyboard::KeyCode;
use bevy::input::Input;
use crate::world::{
    after_tick, controller_count, is_only_controller, tick_result, LookupError, World,
};

verus! {

/// `bevy::input::Input`, the engine's record of which buttons are down and
/// which changed during the current tick. Nothing inside it is visible to
/// Verus.
#[verifier::external_type_specification]
#[verifier::external_body]
#[verifier::reject_recursive_types(T)]
pub struct ExInput<T: Copy + Eq + Hash + Send + Sync + 'static>(bevy::input::Input<T>);

/// `bevy::input::keyboard::KeyCode`, the engine's names for the keys of a
/// keyboard: an enum of plain variants.
#[verifier::external_type_specification]
pub struct ExKeyCode(bevy::input::keyboard::KeyCode);

/// The keys whose release the engine registered during the current tick:
/// the contents of the record's `just_released` set.
pub uninterp spec fn released_keys(input: Input<KeyCode>) -> Set<KeyCode>;

/// Calls `Input::just_released`, which looks the key up in the record's
/// `just_released` set. The contract says that the answer is membership in
/// `released_keys`; it is taken on trust.
#[verifier::external_body]
fn just_released(input: &Input<KeyCode>, key: KeyCode) -> (r: bool)
    ensures
        r == released_keys(*input).contains(key),
{
    input.just_released(key)
}

/// Whether the key that toggles the camera orbit was released during the
/// tick that `input` records.
pub open spec fn toggle_requested(input: Input<KeyCode>) -> bool {
    released_keys(input).contains(KeyCode::Escape)
}

/// The per-tick toggle handler. If Escape was not released during the tick
/// it does nothing. If it was, the one entity that carries the camera
/// controller has its `enabled` flag inverted and its handle is returned;
/// with no such entity, or with several, the handler fails and the world
/// stays as it was.
pub fn toggle_camera_orbit(world: &mut World, keyboard_input: &Input<KeyCode>) -> (r: Result<
    Option<usize>,
    LookupError,
>)
    ensures
        r == tick_result(old(world)@, toggle_requested(*keyboard_input)),
        final(world)@ == after_tick(old(world)@, toggle_requested(*keyboard_input)),
        r is Ok && r->Ok_0 is Some ==> is_only_controller(old(world)@, r->Ok_0->0 as int),
        controller_count(final(world)@) == controller_count(old(world)@),
{
    let released: bool = just_released(keyboard_input, KeyCode::Escape);
    world.toggle_on_release(released)
}

} // verus!
