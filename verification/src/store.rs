//! The snapshot store: the generation of the previous tick and that of the
//! current one, behind shared copy-on-write handles.
use vstd::prelude::*;
use arcow::Arcow;
use crate::rate::Phase;
use crate::world::{interpolate, shown, Entity, Generation, World};

verus! {

/// `arcow::Arcow`, a reference-counted handle to a value that is copied only
/// when it is written through a handle that is not the last one.
#[verifier::external_type_specification]
#[verifier::external_body]
#[verifier::reject_recursive_types(T)]
pub struct ExArcow<T: Clone>(arcow::Arcow<T>);

/// The generation that a handle leads to.
pub uninterp spec fn shared(handle: &Arcow<World>) -> Generation;

/// `arcow::Arcow::new`: boxes the world with a reference count of one. The
/// handle returned leads to the world given.
#[verifier::external_body]
fn share(world: World) -> (handle: Arcow<World>)
    ensures
        shared(&handle) == world@,
{
    Arcow::new(world)
}

/// `Clone::clone` of `arcow::Arcow`: raises the reference count and copies
/// the pointer. The handle returned leads to the same world.
#[verifier::external_body]
fn share_again(handle: &Arcow<World>) -> (other: Arcow<World>)
    ensures
        shared(&other) == shared(handle),
{
    handle.clone()
}

/// `Deref::deref` of `arcow::Arcow`: a reference to the value behind the
/// pointer. It is the world that the handle leads to.
#[verifier::external_body]
fn read(handle: &Arcow<World>) -> (world: &World)
    ensures
        world@ == shared(handle),
{
    &**handle
}

/// The two live generations of the simulation.
pub struct GameWorld {
    prev_ecs_world: Arcow<World>,
    ecs_world: Arcow<World>,
}

impl GameWorld {
    /// The generation of the previous tick.
    pub closed spec fn previous(&self) -> Generation {
        shared(&self.prev_ecs_world)
    }

    /// The generation of the current tick.
    pub closed spec fn current(&self) -> Generation {
        shared(&self.ecs_world)
    }

    /// A store at tick zero: `world` is both the previous and the current
    /// generation.
    pub fn new(world: World) -> (store: GameWorld)
        ensures
            store.previous() == world@,
            store.current() == world@,
    {
        let ecs_world = share(world);
        GameWorld { prev_ecs_world: share_again(&ecs_world), ecs_world }
    }

    /// The current generation.
    pub fn get_ecs_world(&self) -> (world: &World)
        ensures
            world@ == self.current(),
    {
        read(&self.ecs_world)
    }

    /// The previous generation.
    pub fn get_prev_ecs_world(&self) -> (world: &World)
        ensures
            world@ == self.previous(),
    {
        read(&self.prev_ecs_world)
    }

    /// Settles what a mutation of the current generation came to. A next
    /// generation is published: the current one becomes the previous one and
    /// the next one the current. A failure publishes nothing: the store is
    /// left exactly as it was and the failure is handed on.
    pub fn publish<E>(&mut self, outcome: Result<World, E>) -> (r: Result<(), E>)
        ensures
            match outcome {
                Ok(next) => r is Ok && final(self).previous() == old(self).current()
                    && final(self).current() == next@,
                Err(e) => r == Err::<(), E>(e) && *final(self) == *old(self),
            },
    {
        match outcome {
            Ok(next) => {
                let fresh = share(next);
                self.prev_ecs_world = share_again(&self.ecs_world);
                self.ecs_world = fresh;
                Ok(())
            },
            Err(e) => Err(e),
        }
    }

    /// Advances by one tick. `mutate_fn` gets a working copy of the current
    /// generation and returns the next one, which is then published. If it
    /// fails instead, the store is left exactly as it was and the failure is
    /// handed on.
    pub fn tick<E, F: FnOnce(World) -> Result<World, E>>(&mut self, mutate_fn: F) -> (r: Result<
        (),
        E,
    >)
        requires
            forall|w: World| w@ == old(self).current() ==> mutate_fn.requires((w,)),
        ensures
            match r {
                Ok(_) => final(self).previous() == old(self).current() && exists|
                    w: World,
                    next: World,
                |
                    w@ == old(self).current() && mutate_fn.ensures((w,), Ok(next))
                        && final(self).current() == next@,
                Err(e) => *final(self) == *old(self) && exists|w: World|
                    w@ == old(self).current() && mutate_fn.ensures((w,), Err(e)),
            },
    {
        let working: World = read(&self.ecs_world).duplicate();
        let outcome = mutate_fn(working);
        self.publish(outcome)
    }

    /// Lets `handler` read the previous and the current generation together,
    /// as they stand after one and the same tick, and hands on what it
    /// returns.
    pub fn with_ecs_world<R, F: FnOnce(&World, &World) -> R>(&self, handler: F) -> (r: R)
        requires
            forall|before: &World, now: &World|
                before@ == self.previous() && now@ == self.current() ==> handler.requires(
                    (before, now),
                ),
        ensures
            exists|before: &World, now: &World|
                before@ == self.previous() && now@ == self.current() && handler.ensures(
                    (before, now),
                    r,
                ),
    {
        handler(read(&self.prev_ecs_world), read(&self.ecs_world))
    }

    /// What to render at `phase`: each entity of the current generation,
    /// blended from the previous generation where it existed there.
    pub fn interpolated_view(&self, phase: Phase) -> (view: Vec<Entity>)
        requires
            phase.wf(),
        ensures
            view@.len() == self.current().entities.len(),
            forall|i: int|
                0 <= i < view@.len() ==> (#[trigger] view@[i]) == shown(
                    self.previous().entities,
                    self.current().entities[i],
                    phase,
                ),
    {
        interpolate(read(&self.prev_ecs_world), read(&self.ecs_world), phase)
    }
}

} // verus!
