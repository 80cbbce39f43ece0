//! An explicit entity registry: entities are opaque indices, and each
//! component kind lives in its own table, indexed by entity. An entity is
//! created once, from a complete description record, and lives for the
//! registry's lifetime.

use vstd::prelude::*;
use crate::components::{
    AxisVector, ColliderShape, Damping, ExternalForce, InputMapping, Placement, RigidBody,
    SpriteAsset,
};

verus! {

/// Everything one entity carries, stated once and handed to a single
/// creation call, so that no partially-constructed entity ever exists.
/// `player` and `camera` are bare markers; every other component is
/// optional.
#[derive(Clone, Copy, PartialEq, Eq, Debug)]
pub struct EntityDescriptor {
    pub player: bool,
    pub camera: bool,
    pub placement: Option<Placement>,
    pub sprite: Option<SpriteAsset>,
    pub input: Option<InputMapping>,
    pub axis: Option<AxisVector>,
    pub body: Option<RigidBody>,
    pub collider: Option<ColliderShape>,
    pub force: Option<ExternalForce>,
    pub damping: Option<Damping>,
    pub restitution: Option<i32>,
}

impl EntityDescriptor {
    /// A description the registry accepts: a player carries an input
    /// mapping, an axis sample and an external force; every stored axis is
    /// clamped; and no stored torque is ever other than zero (the movement
    /// system overwrites forces but leaves torque alone).
    pub open spec fn wf(self) -> bool {
        &&& self.player ==> self.input is Some && self.axis is Some && self.force is Some
        &&& self.axis is Some ==> self.axis->Some_0.clamped()
        &&& self.force is Some ==> self.force->Some_0.torque == 0
    }
}

/// The world: one table per component kind, all of one length, with the
/// entity identifier as the common index.
pub struct World {
    pub player: Vec<bool>,
    pub camera: Vec<bool>,
    pub placement: Vec<Option<Placement>>,
    pub sprite: Vec<Option<SpriteAsset>>,
    pub input: Vec<Option<InputMapping>>,
    pub axis: Vec<Option<AxisVector>>,
    pub body: Vec<Option<RigidBody>>,
    pub collider: Vec<Option<ColliderShape>>,
    pub force: Vec<Option<ExternalForce>>,
    pub damping: Vec<Option<Damping>>,
    pub restitution: Vec<Option<i32>>,
}

impl World {
    /// How many entities exist.
    pub open spec fn len(self) -> nat {
        self.player@.len()
    }

    /// Well-formedness: the tables agree in length, every player entity
    /// carries an input mapping, an axis sample and an external force,
    /// every stored axis is clamped, and every stored torque is zero.
    pub open spec fn wf(self) -> bool {
        &&& self.camera@.len() == self.len()
        &&& self.placement@.len() == self.len()
        &&& self.sprite@.len() == self.len()
        &&& self.input@.len() == self.len()
        &&& self.axis@.len() == self.len()
        &&& self.body@.len() == self.len()
        &&& self.collider@.len() == self.len()
        &&& self.force@.len() == self.len()
        &&& self.damping@.len() == self.len()
        &&& self.restitution@.len() == self.len()
        &&& forall|i: int|
            0 <= i < self.len() && #[trigger] self.player@[i] ==> self.input@[i] is Some
                && self.axis@[i] is Some && self.force@[i] is Some
        &&& forall|i: int|
            0 <= i < self.len() && #[trigger] self.axis@[i] is Some
                ==> self.axis@[i]->Some_0.clamped()
        &&& forall|i: int|
            0 <= i < self.len() && #[trigger] self.force@[i] is Some
                ==> self.force@[i]->Some_0.torque == 0
    }

    /// The descriptor one entity currently answers to.
    pub open spec fn entity(self, i: int) -> EntityDescriptor {
        EntityDescriptor {
            player: self.player@[i],
            camera: self.camera@[i],
            placement: self.placement@[i],
            sprite: self.sprite@[i],
            input: self.input@[i],
            axis: self.axis@[i],
            body: self.body@[i],
            collider: self.collider@[i],
            force: self.force@[i],
            damping: self.damping@[i],
            restitution: self.restitution@[i],
        }
    }

    /// An empty world with no entities.
    pub fn new() -> (w: World)
        ensures
            w.wf(),
            w.len() == 0,
    {
        World {
            player: Vec::new(),
            camera: Vec::new(),
            placement: Vec::new(),
            sprite: Vec::new(),
            input: Vec::new(),
            axis: Vec::new(),
            body: Vec::new(),
            collider: Vec::new(),
            force: Vec::new(),
            damping: Vec::new(),
            restitution: Vec::new(),
        }
    }

    /// How many entities exist, as a runtime value.
    pub fn entity_count(&self) -> (n: usize)
        ensures
            n == self.len(),
    {
        self.player.len()
    }

    /// Create one entity from its complete description; the new entity's
    /// identifier is the old entity count, and every existing entity is
    /// left exactly as it was.
    pub fn spawn(&mut self, desc: EntityDescriptor) -> (id: usize)
        requires
            old(self).wf(),
            desc.wf(),
        ensures
            final(self).wf(),
            id == old(self).len(),
            final(self).len() == old(self).len() + 1,
            final(self).player@ == old(self).player@.push(desc.player),
            final(self).camera@ == old(self).camera@.push(desc.camera),
            final(self).placement@ == old(self).placement@.push(desc.placement),
            final(self).sprite@ == old(self).sprite@.push(desc.sprite),
            final(self).input@ == old(self).input@.push(desc.input),
            final(self).axis@ == old(self).axis@.push(desc.axis),
            final(self).body@ == old(self).body@.push(desc.body),
            final(self).collider@ == old(self).collider@.push(desc.collider),
            final(self).force@ == old(self).force@.push(desc.force),
            final(self).damping@ == old(self).damping@.push(desc.damping),
            final(self).restitution@ == old(self).restitution@.push(desc.restitution),
            final(self).entity(id as int) == desc,
    {
        let id: usize = self.player.len();
        self.player.push(desc.player);
        self.camera.push(desc.camera);
        self.placement.push(desc.placement);
        self.sprite.push(desc.sprite);
        self.input.push(desc.input);
        self.axis.push(desc.axis);
        self.body.push(desc.body);
        self.collider.push(desc.collider);
        self.force.push(desc.force);
        self.damping.push(desc.damping);
        self.restitution.push(desc.restitution);
        id
    }

    /// Overwrite one entity's axis sample with a freshly clamped reading
    /// from the input layer; nothing else changes. Only entities that
    /// already carry an axis sample (players) take one.
    pub fn set_axis(&mut self, id: usize, axis: AxisVector)
        requires
            old(self).wf(),
            id < old(self).len(),
            old(self).axis@[id as int] is Some,
            axis.clamped(),
        ensures
            final(self).wf(),
            final(self).len() == old(self).len(),
            final(self).axis@ == old(self).axis@.update(id as int, Some(axis)),
            final(self).player@ == old(self).player@,
            final(self).camera@ == old(self).camera@,
            final(self).placement@ == old(self).placement@,
            final(self).sprite@ == old(self).sprite@,
            final(self).input@ == old(self).input@,
            final(self).body@ == old(self).body@,
            final(self).collider@ == old(self).collider@,
            final(self).force@ == old(self).force@,
            final(self).damping@ == old(self).damping@,
            final(self).restitution@ == old(self).restitution@,
    {
        self.axis.set(id, Some(axis));
    }
}

} // verus!
