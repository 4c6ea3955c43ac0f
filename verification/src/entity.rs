//! Entity handles: an identity plus a validity flag, standing in for the
//! entity itself. The owning scene is passed explicitly into every
//! accessor, which routes the access through that scene's store. An invalid
//! handle safely rejects every access.

use vstd::prelude::*;
use crate::component::{
    DirectionalLightComponent, MeshComponent, PointLightComponent,
    SkyLightComponent, TagComponent, TransformComponent,
};
use crate::scene::Scene;
use crate::world::{EntryV, contains_id, lookup_spec};

verus! {

/// A handle to an entity of some scene: its identity and whether the
/// handle was ever valid. Whether the entity is still live is the owning
/// scene's knowledge, so the full validity check consults the scene.
#[derive(Clone, Copy, Debug, PartialEq, Eq, Structural)]
pub struct Entity {
    pub ID: u64,
    pub Valid: bool,
}

impl Entity {
    /// A handle to the entity with the given identity.
    pub fn Create(id: u64) -> (r: Entity)
        ensures
            r == (Entity { ID: id, Valid: true }),
    {
        Entity { ID: id, Valid: true }
    }

    /// The explicit invalid sentinel, as returned by a missed lookup.
    pub fn CreateEmpty() -> (r: Entity)
        ensures
            !r.Valid,
    {
        Entity { ID: 0, Valid: false }
    }

    /// The entity identity this handle carries.
    pub fn GetID(&self) -> (r: u64)
        ensures
            r == self.ID,
    {
        self.ID
    }

    /// Whether this handle refers to an entity that is live in `scene`.
    pub fn IsValid(&self, scene: &Scene) -> (r: bool)
        ensures
            r == (self.Valid && contains_id(scene.world_view(), self.ID)),
    {
        self.Valid && scene.GetWorld().Contains(self.ID)
    }

    /// The tag of the entity, if the handle is valid and the entity live.
    pub fn GetTag<'a>(&self, scene: &'a Scene) -> (r: Option<&'a TagComponent>)
        ensures
            match r {
                Some(t) => {
                    &&& self.Valid
                    &&& lookup_spec(scene.world_view(), self.ID) is Some
                    &&& t.Tag@ == lookup_spec(scene.world_view(), self.ID)->Some_0.Tag
                },
                None => !self.Valid || lookup_spec(scene.world_view(), self.ID) is None,
            },
    {
        if self.Valid {
            scene.GetWorld().GetTag(self.ID)
        } else {
            None
        }
    }

    /// The transform of the entity, if the handle is valid and the entity
    /// live.
    pub fn GetTransform(&self, scene: &Scene) -> (r: Option<TransformComponent>)
        ensures
            match r {
                Some(t) => {
                    &&& self.Valid
                    &&& lookup_spec(scene.world_view(), self.ID) is Some
                    &&& t == lookup_spec(scene.world_view(), self.ID)->Some_0.Transform
                },
                None => !self.Valid || lookup_spec(scene.world_view(), self.ID) is None,
            },
    {
        if self.Valid {
            scene.GetWorld().GetTransform(self.ID)
        } else {
            None
        }
    }

    /// Replaces the transform of the entity. An invalid or stale handle is
    /// rejected and nothing changes.
    pub fn SetTransform(&self, scene: &mut Scene, t: TransformComponent) -> (r: bool)
        requires
            old(scene).wf(),
            t.in_range(),
        ensures
            final(scene).wf(),
            r == (self.Valid && contains_id(old(scene).world_view(), self.ID)),
            r ==> exists|i: int| {
                &&& 0 <= i < old(scene).world_view().len()
                &&& old(scene).world_view()[i].ID == self.ID
                &&& final(scene).world_view() == old(scene).world_view().update(i, EntryV {
                    Transform: t,
                    ..old(scene).world_view()[i]
                })
            },
            !r ==> *final(scene) == *old(scene),
            final(scene).camera_spec() == old(scene).camera_spec(),
            final(scene).state_spec() == old(scene).state_spec(),
            final(scene).viewport_spec() == old(scene).viewport_spec(),
    {
        if self.IsValid(scene) {
            let world = scene.GetWorldMut();
            world.SetTransform(self.ID, t);
            true
        } else {
            false
        }
    }

    /// Attaches (or replaces) a mesh component on the entity. An invalid or
    /// stale handle is rejected and nothing changes.
    pub fn AttachMesh(&self, scene: &mut Scene, c: MeshComponent) -> (r: bool)
        requires
            old(scene).wf(),
        ensures
            final(scene).wf(),
            r == (self.Valid && contains_id(old(scene).world_view(), self.ID)),
            r ==> exists|i: int| {
                &&& 0 <= i < old(scene).world_view().len()
                &&& old(scene).world_view()[i].ID == self.ID
                &&& final(scene).world_view() == old(scene).world_view().update(i, EntryV {
                    Mesh: Some(c@),
                    ..old(scene).world_view()[i]
                })
            },
            !r ==> *final(scene) == *old(scene),
            final(scene).camera_spec() == old(scene).camera_spec(),
            final(scene).state_spec() == old(scene).state_spec(),
            final(scene).viewport_spec() == old(scene).viewport_spec(),
    {
        let ghost cv = c@;
        if self.IsValid(scene) {
            let world = scene.GetWorldMut();
            world.AttachMesh(self.ID, c);
            true
        } else {
            false
        }
    }

    /// Attaches (or replaces) a sky-light component on the entity. An
    /// invalid or stale handle is rejected and nothing changes.
    pub fn AttachSkyLight(&self, scene: &mut Scene, c: SkyLightComponent) -> (r: bool)
        requires
            old(scene).wf(),
        ensures
            final(scene).wf(),
            r == (self.Valid && contains_id(old(scene).world_view(), self.ID)),
            r ==> exists|i: int| {
                &&& 0 <= i < old(scene).world_view().len()
                &&& old(scene).world_view()[i].ID == self.ID
                &&& final(scene).world_view() == old(scene).world_view().update(i, EntryV {
                    SkyLight: Some(c),
                    ..old(scene).world_view()[i]
                })
            },
            !r ==> *final(scene) == *old(scene),
            final(scene).camera_spec() == old(scene).camera_spec(),
            final(scene).state_spec() == old(scene).state_spec(),
            final(scene).viewport_spec() == old(scene).viewport_spec(),
    {
        if self.IsValid(scene) {
            let world = scene.GetWorldMut();
            world.AttachSkyLight(self.ID, c);
            true
        } else {
            false
        }
    }

    /// Attaches (or replaces) a directional-light component on the entity.
    /// An invalid or stale handle is rejected and nothing changes.
    pub fn AttachDirectionalLight(&self, scene: &mut Scene, c: DirectionalLightComponent) -> (r: bool)
        requires
            old(scene).wf(),
        ensures
            final(scene).wf(),
            r == (self.Valid && contains_id(old(scene).world_view(), self.ID)),
            r ==> exists|i: int| {
                &&& 0 <= i < old(scene).world_view().len()
                &&& old(scene).world_view()[i].ID == self.ID
                &&& final(scene).world_view() == old(scene).world_view().update(i, EntryV {
                    DirectionalLight: Some(c),
                    ..old(scene).world_view()[i]
                })
            },
            !r ==> *final(scene) == *old(scene),
            final(scene).camera_spec() == old(scene).camera_spec(),
            final(scene).state_spec() == old(scene).state_spec(),
            final(scene).viewport_spec() == old(scene).viewport_spec(),
    {
        if self.IsValid(scene) {
            let world = scene.GetWorldMut();
            world.AttachDirectionalLight(self.ID, c);
            true
        } else {
            false
        }
    }

    /// Attaches (or replaces) a point-light component on the entity. An
    /// invalid or stale handle is rejected and nothing changes.
    pub fn AttachPointLight(&self, scene: &mut Scene, c: PointLightComponent) -> (r: bool)
        requires
            old(scene).wf(),
        ensures
            final(scene).wf(),
            r == (self.Valid && contains_id(old(scene).world_view(), self.ID)),
            r ==> exists|i: int| {
                &&& 0 <= i < old(scene).world_view().len()
                &&& old(scene).world_view()[i].ID == self.ID
                &&& final(scene).world_view() == old(scene).world_view().update(i, EntryV {
                    PointLight: Some(c),
                    ..old(scene).world_view()[i]
                })
            },
            !r ==> *final(scene) == *old(scene),
            final(scene).camera_spec() == old(scene).camera_spec(),
            final(scene).state_spec() == old(scene).state_spec(),
            final(scene).viewport_spec() == old(scene).viewport_spec(),
    {
        if self.IsValid(scene) {
            let world = scene.GetWorldMut();
            world.AttachPointLight(self.ID, c);
            true
        } else {
            false
        }
    }

    /// The sky-light component of the entity, if the handle is valid, the
    /// entity live, and the component attached.
    pub fn GetSkyLight(&self, scene: &Scene) -> (r: Option<SkyLightComponent>)
        ensures
            match lookup_spec(scene.world_view(), self.ID) {
                Some(e) => r == (if self.Valid { e.SkyLight } else { None }),
                None => r is None,
            },
    {
        if self.Valid {
            scene.GetWorld().GetSkyLight(self.ID)
        } else {
            None
        }
    }
}

} // verus!
