//! The entity store and the per-tick toggle handler that works on it.

use vstd::prelude::*;
use crate::entity::{Entity, EntityKind};
use crate::orbit::OrbitState;

verus! {

/// The number of entities in `s` that carry a camera controller.
pub open spec fn controller_count(s: Seq<Entity>) -> nat
    decreases s.len(),
{
    if s.len() == 0 {
        0
    } else {
        controller_count(s.drop_last()) + if s.last().controller is Some {
            1nat
        } else {
            0nat
        }
    }
}

/// The number of entities of the given kind in `s`.
pub open spec fn kind_count(s: Seq<Entity>, kind: EntityKind) -> nat
    decreases s.len(),
{
    if s.len() == 0 {
        0
    } else {
        kind_count(s.drop_last(), kind) + if s.last().spec_kind() == kind {
            1nat
        } else {
            0nat
        }
    }
}

/// Entity `i` of `s` carries a camera controller and no other entity does.
pub open spec fn is_only_controller(s: Seq<Entity>, i: int) -> bool {
    &&& 0 <= i < s.len()
    &&& s[i].controller is Some
    &&& forall|j: int| 0 <= j < s.len() && j != i ==> s[j].controller is None
}

/// The entities after a release of the toggle key, where entity `i` carries
/// the controller: that entity with its flag inverted, every other entity
/// untouched.
pub open spec fn toggled_at(s: Seq<Entity>, i: int) -> Seq<Entity> {
    s.update(i, s[i].with_flipped_controller())
}

/// The handle of the entity that carries the camera controller, where
/// exactly one entity does.
pub open spec fn controller_index(s: Seq<Entity>) -> int {
    choose|i: int| is_only_controller(s, i)
}

/// The entities after one tick of the toggle handler that did not fail. A
/// tick without a release changes nothing; a release inverts the flag of the
/// one controller. Where no entity or more than one carries a controller the
/// handler fails, and the entities stay as they are.
pub open spec fn after_tick(s: Seq<Entity>, released: bool) -> Seq<Entity> {
    if released && controller_count(s) == 1 {
        toggled_at(s, controller_index(s))
    } else {
        s
    }
}

/// What one tick of the toggle handler reports. A tick without a release
/// looks nothing up and reports no entity. A release reports the handle of
/// the one entity that carries the controller, or why there is no such
/// entity.
pub open spec fn tick_result(s: Seq<Entity>, released: bool) -> Result<Option<usize>, LookupError> {
    if !released {
        Ok(None)
    } else if controller_count(s) == 0 {
        Err(LookupError::NoController)
    } else if controller_count(s) == 1 {
        Ok(Some(controller_index(s) as usize))
    } else {
        Err(LookupError::MultipleControllers)
    }
}

/// The entities after a run of ticks, the first tick first. Each entry says
/// whether the toggle key was released during that tick.
pub open spec fn after_ticks(s: Seq<Entity>, ticks: Seq<bool>) -> Seq<Entity>
    decreases ticks.len(),
{
    if ticks.len() == 0 {
        s
    } else {
        after_tick(after_ticks(s, ticks.drop_last()), ticks.last())
    }
}

/// Whether the one camera controller among `s` is enabled.
pub open spec fn orbit_enabled(s: Seq<Entity>) -> bool {
    s[controller_index(s)].controller->0.enabled
}

/// Why the lookup of the camera controller failed.
#[derive(Clone, Copy, Debug, PartialEq, Eq, Structural)]
pub enum LookupError {
    /// No entity carries a camera controller.
    NoController,
    /// More than one entity carries a camera controller.
    MultipleControllers,
}

/// The entities of a scene, in the order in which they were spawned. An
/// entity is known by its position in that order.
#[derive(Clone, Debug, PartialEq, Eq)]
pub struct World {
    entities: Vec<Entity>,
}

impl View for World {
    type V = Seq<Entity>;

    closed spec fn view(&self) -> Seq<Entity> {
        self.entities@
    }
}

impl World {
    /// A world without entities.
    pub fn new() -> (w: World)
        ensures
            w@ == Seq::<Entity>::empty(),
    {
        World { entities: Vec::new() }
    }

    /// The number of entities.
    pub fn len(&self) -> (n: usize)
        ensures
            n == self@.len(),
    {
        self.entities.len()
    }

    /// Adds an entity and returns the handle by which it is found again.
    pub fn spawn(&mut self, entity: Entity) -> (id: usize)
        ensures
            final(self)@ == old(self)@.push(entity),
            id == old(self)@.len(),
    {
        let id: usize = self.entities.len();
        self.entities.push(entity);
        id
    }

    /// The entity with the given handle, if there is one.
    pub fn get(&self, id: usize) -> (e: Option<Entity>)
        ensures
            e is Some <==> id < self@.len(),
            e is Some ==> e->0 == self@[id as int],
    {
        if id < self.entities.len() {
            Some(self.entities[id])
        } else {
            None
        }
    }

    /// The number of entities of the given kind.
    pub fn count_kind(&self, kind: EntityKind) -> (n: usize)
        ensures
            n == kind_count(self@, kind),
    {
        let mut n: usize = 0;
        let mut i: usize = 0;
        while i < self.entities.len()
            invariant
                i <= self.entities.len(),
                n <= i,
                n == kind_count(self@.take(i as int), kind),
            decreases self.entities.len() - i,
        {
            assert(self@.take(i + 1).drop_last() =~= self@.take(i as int));
            if self.entities[i].kind() == kind {
                n = n + 1;
            }
            i = i + 1;
        }
        assert(self@.take(i as int) =~= self@);
        n
    }

    /// The number of entities that carry a camera controller.
    pub fn count_controllers(&self) -> (n: usize)
        ensures
            n == controller_count(self@),
    {
        let mut n: usize = 0;
        let mut i: usize = 0;
        while i < self.entities.len()
            invariant
                i <= self.entities.len(),
                n <= i,
                n == controller_count(self@.take(i as int)),
            decreases self.entities.len() - i,
        {
            assert(self@.take(i + 1).drop_last() =~= self@.take(i as int));
            if self.entities[i].has_controller() {
                n = n + 1;
            }
            i = i + 1;
        }
        assert(self@.take(i as int) =~= self@);
        n
    }

    /// Looks up the one entity that carries the camera controller. The lookup
    /// succeeds exactly when one entity carries a controller; with none, or
    /// with more than one, it reports which of the two went wrong and picks
    /// no entity.
    pub fn single_controller(&self) -> (r: Result<usize, LookupError>)
        ensures
            r is Ok <==> controller_count(self@) == 1,
            r is Ok ==> is_only_controller(self@, r->Ok_0 as int),
            r == Err::<usize, LookupError>(LookupError::NoController) <==> controller_count(
                self@,
            ) == 0,
            r == Err::<usize, LookupError>(LookupError::MultipleControllers)
                <==> controller_count(self@) >= 2,
    {
        let mut found: Option<usize> = None;
        let mut i: usize = 0;
        while i < self.entities.len()
            invariant
                i <= self.entities.len(),
                found is None ==> controller_count(self@.take(i as int)) == 0,
                found is None ==> forall|j: int| 0 <= j < i ==> self@[j].controller is None,
                found is Some ==> controller_count(self@.take(i as int)) == 1,
                found is Some ==> found->0 < i && is_only_controller(
                    self@.take(i as int),
                    found->0 as int,
                ),
            decreases self.entities.len() - i,
        {
            assert(self@.take(i + 1).drop_last() =~= self@.take(i as int));
            if self.entities[i].has_controller() {
                if found.is_some() {
                    proof {
                        lemma_controller_count_grows(self@.take(i + 1), self@);
                    }
                    return Err(LookupError::MultipleControllers);
                }
                found = Some(i);
            }
            i = i + 1;
        }
        assert(self@.take(i as int) =~= self@);
        match found {
            Some(id) => Ok(id),
            None => Err(LookupError::NoController),
        }
    }

    /// One tick of the toggle handler, given whether the toggle key was
    /// released during the tick. Without a release nothing is looked up and
    /// nothing changes. On a release the one entity that carries the camera
    /// controller has its `enabled` flag inverted, and its handle is
    /// returned; where the lookup is not unambiguous the handler fails and
    /// leaves the world as it was.
    pub fn toggle_on_release(&mut self, released: bool) -> (r: Result<Option<usize>, LookupError>)
        ensures
            r == tick_result(old(self)@, released),
            final(self)@ == after_tick(old(self)@, released),
            r is Ok && r->Ok_0 is Some ==> is_only_controller(old(self)@, r->Ok_0->0 as int),
            controller_count(final(self)@) == controller_count(old(self)@),
    {
        if !released {
            return Ok(None);
        }
        proof {
            lemma_only_controller_is_unique(self@);
            lemma_tick_keeps_the_controller(self@, released);
        }
        match self.single_controller() {
            Ok(id) => {
                let mut entity: Entity = self.entities[id];
                match entity.controller {
                    Some(mut controller) => {
                        controller.toggle_on_release(true);
                        entity.controller = Some(controller);
                    },
                    None => {},
                }
                self.entities.set(id, entity);
                Ok(Some(id))
            },
            Err(e) => Err(e),
        }
    }
}

/// A prefix of a sequence holds at most as many controllers as the whole.
pub proof fn lemma_controller_count_grows(prefix: Seq<Entity>, whole: Seq<Entity>)
    requires
        prefix.len() <= whole.len(),
        prefix =~= whole.take(prefix.len() as int),
    ensures
        controller_count(prefix) <= controller_count(whole),
    decreases whole.len(),
{
    if prefix.len() < whole.len() {
        assert(whole.drop_last().take(prefix.len() as int) =~= whole.take(prefix.len() as int));
        lemma_controller_count_grows(prefix, whole.drop_last());
    } else {
        assert(prefix =~= whole);
    }
}

/// No controller is counted exactly when no entity carries one.
pub proof fn lemma_no_controller(s: Seq<Entity>)
    ensures
        controller_count(s) == 0 <==> forall|j: int| 0 <= j < s.len() ==> s[j].controller is None,
    decreases s.len(),
{
    if s.len() > 0 {
        lemma_no_controller(s.drop_last());
        assert forall|j: int| 0 <= j < s.len() - 1 implies s.drop_last()[j] == s[j] by {}
        if controller_count(s) == 0 {
            assert forall|j: int| 0 <= j < s.len() implies s[j].controller is None by {
                if j < s.len() - 1 {
                    assert(s.drop_last()[j] == s[j]);
                }
            }
        }
        if forall|j: int| 0 <= j < s.len() ==> s[j].controller is None {
            assert forall|j: int| 0 <= j < s.drop_last().len() implies s.drop_last()[j].controller is None by {
                assert(s.drop_last()[j] == s[j]);
            }
        }
    }
}

/// One controller is counted exactly when some entity is the only one that
/// carries a controller, and then that entity is `controller_index`.
pub proof fn lemma_only_controller_is_unique(s: Seq<Entity>)
    ensures
        controller_count(s) == 1 <==> exists|i: int| is_only_controller(s, i),
        controller_count(s) == 1 ==> is_only_controller(s, controller_index(s)),
        forall|i: int| is_only_controller(s, i) ==> i == controller_index(s),
    decreases s.len(),
{
    if s.len() > 0 {
        let front = s.drop_last();
        let last = s.len() - 1;
        lemma_only_controller_is_unique(front);
        lemma_no_controller(front);
        assert forall|j: int| 0 <= j < last implies front[j] == s[j] by {}
        if controller_count(s) == 1 {
            if s.last().controller is Some {
                assert(is_only_controller(s, last)) by {
                    assert forall|j: int| 0 <= j < s.len() && j != last implies s[j].controller is None by {
                        assert(front[j] == s[j]);
                    }
                }
            } else {
                let i = controller_index(front);
                assert(is_only_controller(front, i));
                assert(is_only_controller(s, i)) by {
                    assert(front[i] == s[i]);
                    assert forall|j: int| 0 <= j < s.len() && j != i implies s[j].controller is None by {
                        if j < last {
                            assert(front[j] == s[j]);
                        }
                    }
                }
            }
        }
        if exists|i: int| is_only_controller(s, i) {
            let i = choose|i: int| is_only_controller(s, i);
            if i == last {
                assert forall|j: int| 0 <= j < front.len() implies front[j].controller is None by {
                    assert(front[j] == s[j]);
                }
            } else {
                assert(is_only_controller(front, i)) by {
                    assert(front[i] == s[i]);
                    assert forall|j: int| 0 <= j < front.len() && j != i implies front[j].controller is None by {
                        assert(front[j] == s[j]);
                    }
                }
            }
        }
    }
    assert forall|i: int| is_only_controller(s, i) implies i == controller_index(s) by {
        let k = controller_index(s);
        assert(is_only_controller(s, k));
    }
}

/// A tick of the handler neither adds nor removes a controller, and moves it
/// to no other entity.
pub proof fn lemma_tick_keeps_the_controller(s: Seq<Entity>, released: bool)
    ensures
        after_tick(s, released).len() == s.len(),
        controller_count(after_tick(s, released)) == controller_count(s),
        controller_count(s) == 1 ==> controller_index(after_tick(s, released)) == controller_index(
            s,
        ),
{
    lemma_only_controller_is_unique(s);
    if released && controller_count(s) == 1 {
        let i = controller_index(s);
        let t = after_tick(s, released);
        assert(is_only_controller(t, i));
        lemma_only_controller_is_unique(t);
    }
}

/// Two sequences that agree entity by entity on the kind hold the same
/// number of entities of each kind.
pub proof fn lemma_kind_count_by_entity(s: Seq<Entity>, t: Seq<Entity>, kind: EntityKind)
    requires
        s.len() == t.len(),
        forall|j: int| 0 <= j < s.len() ==> s[j].spec_kind() == t[j].spec_kind(),
    ensures
        kind_count(s, kind) == kind_count(t, kind),
    decreases s.len(),
{
    if s.len() > 0 {
        assert forall|j: int| 0 <= j < s.len() - 1 implies s.drop_last()[j].spec_kind()
            == t.drop_last()[j].spec_kind() by {
            assert(s.drop_last()[j] == s[j]);
            assert(t.drop_last()[j] == t[j]);
        }
        lemma_kind_count_by_entity(s.drop_last(), t.drop_last(), kind);
    }
}

/// A tick of the handler changes the kind of no entity.
pub proof fn lemma_tick_keeps_the_kinds(s: Seq<Entity>, released: bool, kind: EntityKind)
    ensures
        kind_count(after_tick(s, released), kind) == kind_count(s, kind),
{
    lemma_only_controller_is_unique(s);
    lemma_kind_count_by_entity(s, after_tick(s, released), kind);
}

/// A tick without a release leaves every entity as it was, whatever the
/// world holds.
pub proof fn lemma_idle_tick_changes_nothing(s: Seq<Entity>)
    ensures
        after_tick(s, false) == s,
{
}

/// In a world with one controller, a release inverts the `enabled` flag and
/// touches nothing else; a second release restores the world as it was.
pub proof fn lemma_release_twice_restores_world(s: Seq<Entity>)
    requires
        controller_count(s) == 1,
    ensures
        orbit_enabled(after_tick(s, true)) == !orbit_enabled(s),
        forall|j: int|
            0 <= j < s.len() && j != controller_index(s) ==> after_tick(s, true)[j] == s[j],
        after_tick(after_tick(s, true), true) == s,
{
    lemma_only_controller_is_unique(s);
    lemma_tick_keeps_the_controller(s, true);
    let i = controller_index(s);
    let t = after_tick(s, true);
    assert(after_tick(t, true) =~= s);
}

/// A run of ticks without a single release leaves the world as it was,
/// however long the run is.
pub proof fn lemma_idle_run_changes_nothing(s: Seq<Entity>, ticks: Seq<bool>)
    requires
        forall|i: int| 0 <= i < ticks.len() ==> !ticks[i],
    ensures
        after_ticks(s, ticks) == s,
    decreases ticks.len(),
{
    if ticks.len() > 0 {
        lemma_idle_run_changes_nothing(s, ticks.drop_last());
    }
}

/// A run of ticks neither adds nor removes a controller.
pub proof fn lemma_run_keeps_the_controller(s: Seq<Entity>, ticks: Seq<bool>)
    ensures
        after_ticks(s, ticks).len() == s.len(),
        controller_count(after_ticks(s, ticks)) == controller_count(s),
    decreases ticks.len(),
{
    if ticks.len() > 0 {
        lemma_run_keeps_the_controller(s, ticks.drop_last());
        lemma_tick_keeps_the_controller(after_ticks(s, ticks.drop_last()), ticks.last());
    }
}

/// In a world with one controller, the `enabled` flag follows the two-state
/// machine through any run of ticks: it is flipped by each release and by
/// nothing else.
pub proof fn lemma_world_follows_the_machine(s: Seq<Entity>, ticks: Seq<bool>)
    requires
        controller_count(s) == 1,
    ensures
        OrbitState::of_flag(orbit_enabled(after_ticks(s, ticks))) == OrbitState::of_flag(
            orbit_enabled(s),
        ).run(ticks),
    decreases ticks.len(),
{
    if ticks.len() > 0 {
        let front = ticks.drop_last();
        lemma_world_follows_the_machine(s, front);
        lemma_run_keeps_the_controller(s, front);
        if ticks.last() {
            lemma_release_twice_restores_world(after_ticks(s, front));
        }
    }
}

/// In a world with no controller, or with more than one, no run of ticks
/// changes anything: the handler never picks one of several.
pub proof fn lemma_ambiguous_world_is_never_touched(s: Seq<Entity>, ticks: Seq<bool>)
    requires
        controller_count(s) != 1,
    ensures
        after_ticks(s, ticks) == s,
    decreases ticks.len(),
{
    if ticks.len() > 0 {
        lemma_ambiguous_world_is_never_touched(s, ticks.drop_last());
    }
}

} // verus!
