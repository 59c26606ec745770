//! The orbit toggle: a two-state machine driven by key-release edges.

use vstd::prelude::*;
use crate::geometry::Point3;

verus! {

/// Whether the free camera currently follows the pointer.
#[derive(Clone, Copy, Debug, PartialEq, Eq, Structural)]
pub enum OrbitState {
    OrbitEnabled,
    OrbitDisabled,
}

impl OrbitState {
    /// The state that a controller with the given flag is in.
    pub open spec fn of_flag(enabled: bool) -> OrbitState {
        if enabled {
            OrbitState::OrbitEnabled
        } else {
            OrbitState::OrbitDisabled
        }
    }

    /// The flag that a controller in this state carries.
    pub open spec fn flag(self) -> bool {
        self == OrbitState::OrbitEnabled
    }

    /// The other state.
    pub open spec fn flipped(self) -> OrbitState {
        match self {
            OrbitState::OrbitEnabled => OrbitState::OrbitDisabled,
            OrbitState::OrbitDisabled => OrbitState::OrbitEnabled,
        }
    }

    /// The state after one tick: flipped if the toggle key was released
    /// during the tick, unchanged otherwise.
    pub open spec fn step(self, released: bool) -> OrbitState {
        if released {
            self.flipped()
        } else {
            self
        }
    }

    /// The state after a run of ticks, the first tick first. Each entry says
    /// whether the toggle key was released during that tick.
    pub open spec fn run(self, ticks: Seq<bool>) -> OrbitState
        decreases ticks.len(),
    {
        if ticks.len() == 0 {
            self
        } else {
            self.run(ticks.drop_last()).step(ticks.last())
        }
    }

    /// The state the machine starts in.
    pub fn initial() -> (s: OrbitState)
        ensures
            s == OrbitState::OrbitEnabled,
    {
        OrbitState::OrbitEnabled
    }

    /// The state of a controller whose flag is `enabled`.
    pub fn from_flag(enabled: bool) -> (s: OrbitState)
        ensures
            s == OrbitState::of_flag(enabled),
    {
        if enabled {
            OrbitState::OrbitEnabled
        } else {
            OrbitState::OrbitDisabled
        }
    }

    /// Whether the camera follows the pointer in this state.
    pub fn is_enabled(self) -> (b: bool)
        ensures
            b == self.flag(),
    {
        match self {
            OrbitState::OrbitEnabled => true,
            OrbitState::OrbitDisabled => false,
        }
    }

    /// Advances the machine by one tick.
    pub fn next(self, released: bool) -> (s: OrbitState)
        ensures
            s == self.step(released),
    {
        if !released {
            return self;
        }
        match self {
            OrbitState::OrbitEnabled => OrbitState::OrbitDisabled,
            OrbitState::OrbitDisabled => OrbitState::OrbitEnabled,
        }
    }
}

/// The number of ticks in `ticks` during which the toggle key was released.
pub open spec fn release_count(ticks: Seq<bool>) -> nat
    decreases ticks.len(),
{
    if ticks.len() == 0 {
        0
    } else {
        release_count(ticks.drop_last()) + if ticks.last() {
            1nat
        } else {
            0nat
        }
    }
}

/// The free-camera controller attached to the camera entity.
#[derive(Clone, Copy, Debug, PartialEq, Eq, Structural)]
pub struct CameraController {
    /// Where the controller steers the camera to.
    pub eye: Point3,
    /// The point the camera keeps looking at.
    pub target: Point3,
    /// The direction that stays upright on screen.
    pub up: Point3,
    /// Whether the controller reacts to input at all.
    pub enabled: bool,
}

impl CameraController {
    /// The controller with its flag inverted and everything else kept.
    pub open spec fn flipped(self) -> CameraController {
        CameraController { enabled: !self.enabled, ..self }
    }

    /// The controller after one tick.
    pub open spec fn step(self, released: bool) -> CameraController {
        if released {
            self.flipped()
        } else {
            self
        }
    }

    /// An enabled controller steering to `eye` and looking at `target`.
    pub fn new(eye: Point3, target: Point3, up: Point3) -> (c: CameraController)
        ensures
            c == (CameraController { eye, target, up, enabled: true }),
    {
        CameraController { eye, target, up, enabled: true }
    }

    /// The state of the toggle machine that this controller is in.
    pub fn state(&self) -> (s: OrbitState)
        ensures
            s == OrbitState::of_flag(self.enabled),
    {
        OrbitState::from_flag(self.enabled)
    }

    /// One tick of the toggle handler on a controller held by handle: a
    /// release of the toggle key inverts `enabled`, anything else leaves the
    /// controller as it was.
    pub fn toggle_on_release(&mut self, released: bool)
        ensures
            *final(self) == old(self).step(released),
            OrbitState::of_flag(final(self).enabled) == OrbitState::of_flag(
                old(self).enabled,
            ).step(released),
    {
        if !released {
            return ;
        }
        self.enabled = !self.enabled;
    }
}

/// One release leaves the machine in the other state, and a second release
/// brings it back to where it started.
pub proof fn lemma_release_twice_restores(s: OrbitState)
    ensures
        s.step(true) != s,
        s.step(true).step(true) == s,
        OrbitState::OrbitEnabled.step(true) == OrbitState::OrbitDisabled,
        OrbitState::OrbitDisabled.step(true) == OrbitState::OrbitEnabled,
{
}

/// A run of ticks without a single release leaves the machine in the state
/// it started in, however long the run is.
pub proof fn lemma_idle_run_keeps_state(s: OrbitState, ticks: Seq<bool>)
    requires
        forall|i: int| 0 <= i < ticks.len() ==> !ticks[i],
    ensures
        s.run(ticks) == s,
    decreases ticks.len(),
{
    if ticks.len() > 0 {
        lemma_idle_run_keeps_state(s, ticks.drop_last());
    }
}

/// After any run of ticks the machine is back in its starting state exactly
/// when the number of releases in the run is even.
pub proof fn lemma_run_follows_parity(s: OrbitState, ticks: Seq<bool>)
    ensures
        release_count(ticks) % 2 == 0 ==> s.run(ticks) == s,
        release_count(ticks) % 2 == 1 ==> s.run(ticks) == s.flipped(),
    decreases ticks.len(),
{
    if ticks.len() > 0 {
        lemma_run_follows_parity(s, ticks.drop_last());
    }
}

/// Running two stretches of ticks one after the other is the same as running
/// their concatenation.
pub proof fn lemma_run_concat(s: OrbitState, first: Seq<bool>, second: Seq<bool>)
    ensures
        s.run(first + second) == s.run(first).run(second),
    decreases second.len(),
{
    if second.len() == 0 {
        assert(first + second =~= first);
    } else {
        lemma_run_concat(s, first, second.drop_last());
        assert((first + second).drop_last() =~= first + second.drop_last());
        assert((first + second).last() == second.last());
    }
}

} // verus!
