//! One generation of simulation state: entities found by their identifiers.
use vstd::prelude::*;
use crate::interp::{angle_subtract_spec, lemma_covered_bounds, Placement, FULL_TURN};
use crate::rate::Phase;

verus! {

/// Names the model that an entity is drawn with.
#[derive(Clone, Copy, Debug, PartialEq, Eq)]
pub struct Visible {
    pub model_path: &'static str,
}

/// One thing in the world.
#[derive(Clone, Copy, Debug, PartialEq, Eq)]
pub struct Entity {
    pub id: u64,
    pub placement: Placement,
    pub visible: Visible,
}

/// The mathematical content of a [`World`].
pub struct Generation {
    /// The entities, in the order of their creation.
    pub entities: Seq<Entity>,
    /// The identifier that the next entity gets.
    pub next_id: u64,
}

/// The entity of `s` with identifier `id`, if there is one.
pub open spec fn lookup(s: Seq<Entity>, id: u64) -> Option<Entity>
    decreases s.len(),
{
    if s.len() == 0 {
        None
    } else if s.last().id == id {
        Some(s.last())
    } else {
        lookup(s.drop_last(), id)
    }
}

/// How the entity `now` is shown at `phase`, given the entities `before` of
/// one tick ago: blended from its earlier placement if it existed then, and
/// as it is now if it did not.
pub open spec fn shown(before: Seq<Entity>, now: Entity, phase: Phase) -> Entity {
    match lookup(before, now.id) {
        Some(earlier) => Entity {
            placement: now.placement.phased_spec(earlier.placement, phase),
            ..now
        },
        None => now,
    }
}

/// The entities `s`, with `placement` given to the one that bears `id`.
pub open spec fn placed(s: Seq<Entity>, id: u64, placement: Placement) -> Seq<Entity> {
    s.map_values(
        |e: Entity|
            if e.id == id {
                Entity { placement, ..e }
            } else {
                e
            },
    )
}

impl Generation {
    /// Identifiers rise strictly along the entities and stay below `next_id`.
    pub open spec fn wf(self) -> bool {
        &&& forall|i: int, j: int|
            0 <= i < j < self.entities.len() ==> self.entities[i].id < self.entities[j].id
        &&& forall|i: int| 0 <= i < self.entities.len() ==> self.entities[i].id < self.next_id
    }

    /// Whether an entity with identifier `id` exists.
    pub open spec fn has(self, id: u64) -> bool {
        lookup(self.entities, id).is_some()
    }
}

/// A found entity is one of the sequence and bears the identifier asked for;
/// where none is found, no entity of the sequence bears it.
pub proof fn lemma_lookup(s: Seq<Entity>, id: u64)
    ensures
        match lookup(s, id) {
            Some(e) => e.id == id && s.contains(e),
            None => forall|i: int| 0 <= i < s.len() ==> s[i].id != id,
        },
    decreases s.len(),
{
    if s.len() > 0 && s.last().id != id {
        lemma_lookup(s.drop_last(), id);
        if lookup(s.drop_last(), id).is_none() {
            assert forall|i: int| 0 <= i < s.len() implies s[i].id != id by {
                if i < s.len() - 1 {
                    assert(s.drop_last()[i] == s[i]);
                }
            }
        }
    }
}

/// Looking an identifier up after a placement was given finds what was there
/// before, with the new placement if it is the entity that received it.
pub proof fn lemma_lookup_placed(s: Seq<Entity>, id: u64, placement: Placement, other: u64)
    ensures
        lookup(placed(s, id, placement), other) == match lookup(s, other) {
            Some(e) => Some(
                if other == id {
                    Entity { placement, ..e }
                } else {
                    e
                },
            ),
            None => None,
        },
    decreases s.len(),
{
    if s.len() > 0 {
        assert(placed(s, id, placement).drop_last() =~= placed(s.drop_last(), id, placement));
        lemma_lookup_placed(s.drop_last(), id, placement, other);
    }
}

/// All entities as of one tick.
#[derive(Debug)]
pub struct World {
    entities: Vec<Entity>,
    next_id: u64,
}

impl View for World {
    type V = Generation;

    closed spec fn view(&self) -> Generation {
        Generation { entities: self.entities@, next_id: self.next_id }
    }
}

impl Clone for World {
    /// A world with the same content.
    fn clone(&self) -> (w: World)
        ensures
            w@ == self@,
    {
        self.duplicate()
    }
}

impl World {
    /// A world without entities.
    pub fn new() -> (w: World)
        ensures
            w@ == (Generation { entities: Seq::empty(), next_id: 0 }),
            w@.wf(),
    {
        World { entities: Vec::new(), next_id: 0 }
    }

    /// Number of entities.
    pub fn len(&self) -> (n: usize)
        ensures
            n == self@.entities.len(),
    {
        self.entities.len()
    }

    /// The entities in the order of their creation.
    pub fn entities(&self) -> (all: Vec<Entity>)
        ensures
            all@ == self@.entities,
    {
        let mut all: Vec<Entity> = Vec::new();
        let mut i: usize = 0;
        while i < self.entities.len()
            invariant
                i <= self.entities.len(),
                all@ == self.entities@.take(i as int),
            decreases self.entities.len() - i,
        {
            all.push(self.entities[i]);
            assert(self.entities@.take(i + 1) =~= self.entities@.take(i as int).push(
                self.entities@[i as int],
            ));
            i = i + 1;
        }
        all
    }

    /// A world with the same content.
    pub fn duplicate(&self) -> (w: World)
        ensures
            w@ == self@,
    {
        World { entities: self.entities(), next_id: self.next_id }
    }

    /// Adds an entity and returns its identifier, which no entity of this
    /// world has borne before; `None`, and nothing added, once the
    /// identifiers are used up.
    pub fn spawn(&mut self, placement: Placement, visible: Visible) -> (id: Option<u64>)
        requires
            old(self)@.wf(),
        ensures
            final(self)@.wf(),
            old(self)@.next_id == u64::MAX ==> id.is_none() && final(self)@ == old(self)@,
            old(self)@.next_id < u64::MAX ==> id == Some(old(self)@.next_id) && final(self)@ == (
            Generation {
                entities: old(self)@.entities.push(
                    Entity { id: old(self)@.next_id, placement, visible },
                ),
                next_id: (old(self)@.next_id + 1) as u64,
            }),
    {
        if self.next_id == u64::MAX {
            None
        } else {
            let id: u64 = self.next_id;
            self.entities.push(Entity { id, placement, visible });
            self.next_id = id + 1;
            Some(id)
        }
    }

    /// Where the entity with identifier `id` stands among the entities.
    fn position(&self, id: u64) -> (at: Option<usize>)
        ensures
            match at {
                Some(i) => i < self@.entities.len() && lookup(self@.entities, id) == Some(
                    self@.entities[i as int],
                ) && self@.entities[i as int].id == id,
                None => lookup(self@.entities, id).is_none(),
            },
    {
        let mut i: usize = self.entities.len();
        assert(self.entities@.take(i as int) =~= self.entities@);
        while i > 0
            invariant
                i <= self.entities.len(),
                lookup(self.entities@, id) == lookup(self.entities@.take(i as int), id),
            decreases i,
        {
            assert(self.entities@.take(i as int).drop_last() =~= self.entities@.take(i - 1));
            if self.entities[i - 1].id == id {
                return Some(i - 1);
            }
            i = i - 1;
        }
        None
    }

    /// The entity with identifier `id`, if it exists.
    pub fn get(&self, id: u64) -> (e: Option<Entity>)
        ensures
            e == lookup(self@.entities, id),
    {
        match self.position(id) {
            Some(i) => Some(self.entities[i]),
            None => None,
        }
    }

    /// Gives the entity with identifier `id` a new placement and says whether
    /// it exists; a world without it stays as it is.
    pub fn set_placement(&mut self, id: u64, placement: Placement) -> (found: bool)
        requires
            old(self)@.wf(),
        ensures
            final(self)@.wf(),
            found == old(self)@.has(id),
            final(self)@ == (Generation {
                entities: placed(old(self)@.entities, id, placement),
                next_id: old(self)@.next_id,
            }),
    {
        proof {
            lemma_lookup(self.entities@, id);
        }
        match self.position(id) {
            Some(i) => {
                let e: Entity = self.entities[i];
                self.entities.set(i, Entity { placement, ..e });
                assert(self.entities@ =~= placed(old(self)@.entities, id, placement));
                true
            },
            None => {
                assert(self.entities@ =~= placed(self.entities@, id, placement));
                false
            },
        }
    }

    /// Removes the entity with identifier `id` and says whether it existed;
    /// the others keep their order.
    pub fn despawn(&mut self, id: u64) -> (found: bool)
        requires
            old(self)@.wf(),
        ensures
            final(self)@.wf(),
            found == old(self)@.has(id),
            !final(self)@.has(id),
            final(self)@.next_id == old(self)@.next_id,
            final(self)@.entities == old(self)@.entities.filter(|e: Entity| e.id != id),
    {
        let ghost before = self.entities@;
        match self.position(id) {
            Some(i) => {
                self.entities.remove(i);
                proof {
                    lemma_filter_one_out(before, i as int, id);
                    lemma_lookup(self.entities@, id);
                }
                true
            },
            None => {
                proof {
                    lemma_lookup(before, id);
                    lemma_filter_keeps_all(before, id);
                }
                false
            },
        }
    }
}

/// Filtering by an identifier that no entity bears keeps them all.
proof fn lemma_filter_keeps_all(s: Seq<Entity>, id: u64)
    requires
        forall|i: int| 0 <= i < s.len() ==> s[i].id != id,
    ensures
        s.filter(|e: Entity| e.id != id) == s,
    decreases s.len(),
{
    reveal(Seq::filter);
    if s.len() > 0 {
        lemma_filter_keeps_all(s.drop_last(), id);
    }
}

/// Filtering by the identifier that only the entity at `at` bears removes
/// that entity and no other.
proof fn lemma_filter_one_out(s: Seq<Entity>, at: int, id: u64)
    requires
        0 <= at < s.len(),
        s[at].id == id,
        forall|i: int| 0 <= i < s.len() && i != at ==> s[i].id != id,
    ensures
        s.filter(|e: Entity| e.id != id) == s.remove(at),
    decreases s.len(),
{
    reveal(Seq::filter);
    if at == s.len() - 1 {
        lemma_filter_keeps_all(s.drop_last(), id);
    } else {
        lemma_filter_one_out(s.drop_last(), at, id);
    }
}

/// At phase zero an entity that existed one tick ago is shown where it was and
/// facing as it did then, at the scale it has now.
pub proof fn shown_at_phase_zero(before: Seq<Entity>, now: Entity, phase: Phase)
    requires
        phase.wf(),
        phase.num == 0,
        lookup(before, now.id).is_some(),
    ensures
        shown(before, now, phase) == (Entity {
            placement: Placement {
                scale: now.placement.scale,
                ..lookup(before, now.id).unwrap().placement
            },
            ..now
        }),
{
    let earlier = lookup(before, now.id).unwrap().placement;
    lemma_covered_bounds(now.placement.x - earlier.x, phase);
    lemma_covered_bounds(now.placement.y - earlier.y, phase);
    lemma_covered_bounds(angle_subtract_spec(now.placement.angle, earlier.angle), phase);
    vstd::arithmetic::div_mod::lemma_small_mod(earlier.angle as nat, FULL_TURN as nat);
}

/// An entity that did not exist one tick ago is shown exactly as it is now,
/// whatever the phase.
pub proof fn shown_when_new(before: Seq<Entity>, now: Entity, phase: Phase)
    requires
        forall|i: int| 0 <= i < before.len() ==> before[i].id != now.id,
    ensures
        shown(before, now, phase) == now,
{
    lemma_lookup(before, now.id);
}

/// What to render at `phase` between the world `before` and the world `now`:
/// each entity of `now`, in order, blended from its placement in `before`
/// where it existed then. Entities that exist only in `before` are left out.
pub fn interpolate(before: &World, now: &World, phase: Phase) -> (view: Vec<Entity>)
    requires
        phase.wf(),
    ensures
        view@.len() == now@.entities.len(),
        forall|i: int|
            0 <= i < view@.len() ==> (#[trigger] view@[i]) == shown(
                before@.entities,
                now@.entities[i],
                phase,
            ),
{
    let mut view: Vec<Entity> = Vec::new();
    let mut i: usize = 0;
    while i < now.entities.len()
        invariant
            i <= now.entities.len(),
            phase.wf(),
            view@.len() == i,
            forall|k: int|
                0 <= k < i ==> (#[trigger] view@[k]) == shown(
                    before@.entities,
                    now@.entities[k],
                    phase,
                ),
        decreases now.entities.len() - i,
    {
        let e: Entity = now.entities[i];
        let drawn: Entity = match before.get(e.id) {
            Some(earlier) => Entity {
                placement: e.placement.get_phased_transform(&earlier.placement, phase),
                ..e
            },
            None => e,
        };
        view.push(drawn);
        i = i + 1;
    }
    view
}

} // verus!
