use rusty_scene::component::{
    DirectionalLightComponent, MeshComponent, SkyLightComponent, TagComponent,
    TransformComponent,
};
use rusty_scene::fixed::FX_ONE;
use rusty_scene::math::Vec3;
use rusty_scene::world::{Signature, World};

fn no_components() -> Signature {
    Signature {
        NeedsMesh: false,
        NeedsSkyLight: false,
        NeedsDirectionalLight: false,
        NeedsPointLight: false,
    }
}

#[test]
fn push_assigns_fresh_identities() {
    let mut world = World::Create();
    let a = world.Push(TagComponent { Tag: String::from("a") }, TransformComponent::default());
    let b = world.Push(TagComponent { Tag: String::from("b") }, TransformComponent::default());
    assert_ne!(a, b);
    assert!(world.Contains(a));
    assert!(world.Contains(b));
    world.Remove(a);
    assert!(!world.Contains(a));
    assert!(world.Contains(b));

    // A removed identity is never reused.
    let c = world.Push(TagComponent { Tag: String::from("c") }, TransformComponent::default());
    assert_ne!(c, a);
    assert_ne!(c, b);
}

#[test]
fn query_matches_signature_in_traversal_order() {
    let mut world = World::Create();
    let a = world.Push(TagComponent { Tag: String::from("a") }, TransformComponent::default());
    let b = world.Push(TagComponent { Tag: String::from("b") }, TransformComponent::default());
    let c = world.Push(TagComponent { Tag: String::from("c") }, TransformComponent::default());
    world.AttachMesh(a, MeshComponent::default());
    world.AttachMesh(c, MeshComponent::default());
    world.AttachSkyLight(b, SkyLightComponent::default());

    let everything = world.Query(no_components());
    assert_eq!(everything, vec![a, b, c]);

    let meshes = world.Query(Signature { NeedsMesh: true, ..no_components() });
    assert_eq!(meshes, vec![a, c]);

    let skies = world.Query(Signature { NeedsSkyLight: true, ..no_components() });
    assert_eq!(skies, vec![b]);

    // Repeated queries against unmodified storage return the same order.
    assert_eq!(world.Query(no_components()), everything);
}

#[test]
fn attach_and_detach_round_trip() {
    let mut world = World::Create();
    let id = world.Push(TagComponent { Tag: String::from("x") }, TransformComponent::default());

    assert!(world.GetMesh(id).is_none());
    world.AttachMesh(id, MeshComponent::default());
    assert!(world.GetMesh(id).is_some());
    world.DetachMesh(id);
    assert!(world.GetMesh(id).is_none());

    assert!(world.GetDirectionalLight(id).is_none());
    world.AttachDirectionalLight(
        id,
        DirectionalLightComponent { Color: Vec3 { x: FX_ONE, y: 0, z: 0 }, Intensity: FX_ONE },
    );
    let sun = world.GetDirectionalLight(id).expect("attached");
    assert_eq!(sun.Color, Vec3 { x: FX_ONE, y: 0, z: 0 });
    world.DetachDirectionalLight(id);
    assert!(world.GetDirectionalLight(id).is_none());

    assert!(world.GetSkyLight(id).is_none());
    world.AttachSkyLight(id, SkyLightComponent::default());
    assert!(world.GetSkyLight(id).is_some());
    world.DetachSkyLight(id);
    assert!(world.GetSkyLight(id).is_none());

    assert!(world.GetPointLight(id).is_none());
}

#[test]
fn set_tag_and_transform_replace_in_place() {
    let mut world = World::Create();
    let id = world.Push(TagComponent { Tag: String::from("old") }, TransformComponent::default());
    world.SetTag(id, TagComponent { Tag: String::from("new") });
    assert_eq!(world.GetTag(id).expect("live").Tag, "new");

    let mut t = world.GetTransform(id).expect("live");
    t.Position = Vec3 { x: 7 * FX_ONE, y: 0, z: 0 };
    world.SetTransform(id, t);
    assert_eq!(world.GetTransform(id).expect("live").Position.x, 7 * FX_ONE);
    assert_eq!(world.Len(), 1);
}
