use rusty_scene::component::{
    DirectionalLightComponent, MeshComponent, MeshRef, PointLightComponent, SkyLightComponent,
    TextureRef,
};
use rusty_scene::entity::Entity;
use rusty_scene::fixed::FX_ONE;
use rusty_scene::math::Vec3;
use rusty_scene::renderer::{Light, RecordedCall, RecordingRenderer};
use rusty_scene::scene::{Scene, SceneError, SceneState, DEFAULT_ASPECT, DEFAULT_FAR, DEFAULT_FOV, DEFAULT_NEAR};

fn black() -> TextureRef {
    TextureRef { ID: 0 }
}

fn sky_light(diffuse: u64, specular: u64) -> SkyLightComponent {
    SkyLightComponent {
        EnvironmentMap: (TextureRef { ID: diffuse }, TextureRef { ID: specular }),
        Intensity: FX_ONE,
    }
}

#[test]
fn create_entity_has_tag_and_default_transform() {
    let mut scene = Scene::Create();
    let e = scene.CreateEntity("X");
    assert!(e.IsValid(&scene));

    let tag = e.GetTag(&scene).expect("live entity has a tag");
    assert_eq!(tag.Tag, "X");

    let t = e.GetTransform(&scene).expect("live entity has a transform");
    assert_eq!(t.Position, Vec3 { x: 0, y: 0, z: 0 });
    assert_eq!(t.Rotation, Vec3 { x: 0, y: 0, z: 0 });
    assert_eq!(t.Scale, Vec3 { x: FX_ONE, y: FX_ONE, z: FX_ONE });
}

#[test]
fn delete_entity_then_find_returns_invalid() {
    let mut scene = Scene::Create();
    let e = scene.CreateEntity("Doomed");
    assert!(scene.FindEntity("Doomed").Valid);
    scene.DeleteEntity(e);
    let found = scene.FindEntity("Doomed");
    assert!(!found.Valid);
    assert!(!found.IsValid(&scene));
}

#[test]
fn find_on_empty_scene_returns_invalid() {
    let scene = Scene::Create();
    assert!(!scene.FindEntity("anything").Valid);
    assert!(!scene.FindEntity("").Valid);
    assert!(!scene.FindEntity("Unnamed").Valid);
}

#[test]
fn find_with_duplicate_tags_is_stable() {
    let mut scene = Scene::Create();
    let first = scene.CreateEntity("dup");
    let _second = scene.CreateEntity("dup");

    let a = scene.FindEntity("dup");
    let b = scene.FindEntity("dup");
    assert!(a.Valid && b.Valid);
    assert_eq!(a.GetID(), b.GetID());
    assert_eq!(a.GetID(), first.GetID());
}

#[test]
fn extraction_without_sky_light_uses_default_black_pair() {
    let mut scene = Scene::Create();
    scene.CreateEntity("plain");
    let mut renderer = RecordingRenderer::Create(black());
    scene.OnEditRender(&mut renderer);

    match &renderer.Calls[0] {
        RecordedCall::BeginScene { Env, .. } => {
            assert_eq!(Env.EnvironmentMap, (black(), black()));
        }
        other => panic!("first call should begin the scene, got {:?}", other),
    }
}

#[test]
fn extraction_uses_first_sky_light_only() {
    let mut scene = Scene::Create();
    let a = scene.CreateEntity("sky-a");
    let b = scene.CreateEntity("sky-b");
    assert!(a.AttachSkyLight(&mut scene, sky_light(7, 8)));
    assert!(b.AttachSkyLight(&mut scene, sky_light(9, 10)));

    let mut renderer = RecordingRenderer::Create(black());
    scene.OnEditRender(&mut renderer);
    match &renderer.Calls[0] {
        RecordedCall::BeginScene { Env, .. } => {
            assert_eq!(Env.EnvironmentMap, (TextureRef { ID: 7 }, TextureRef { ID: 8 }));
        }
        other => panic!("first call should begin the scene, got {:?}", other),
    }

    // Swapping the insertion order changes the selected sky light.
    let mut scene2 = Scene::Create();
    let a2 = scene2.CreateEntity("sky-a");
    let b2 = scene2.CreateEntity("sky-b");
    assert!(a2.AttachSkyLight(&mut scene2, sky_light(9, 10)));
    assert!(b2.AttachSkyLight(&mut scene2, sky_light(7, 8)));

    let mut renderer2 = RecordingRenderer::Create(black());
    scene2.OnEditRender(&mut renderer2);
    match &renderer2.Calls[0] {
        RecordedCall::BeginScene { Env, .. } => {
            assert_eq!(Env.EnvironmentMap, (TextureRef { ID: 9 }, TextureRef { ID: 10 }));
        }
        other => panic!("first call should begin the scene, got {:?}", other),
    }
}

#[test]
fn directional_light_direction_is_negated_position() {
    let mut scene = Scene::Create();
    let e = scene.CreateEntity("sun");
    let mut t = e.GetTransform(&scene).unwrap();
    t.Position = Vec3 { x: FX_ONE, y: 2 * FX_ONE, z: 3 * FX_ONE };
    assert!(e.SetTransform(&mut scene, t));
    assert!(e.AttachDirectionalLight(
        &mut scene,
        DirectionalLightComponent { Color: Vec3 { x: FX_ONE, y: FX_ONE, z: FX_ONE }, Intensity: FX_ONE },
    ));

    let mut renderer = RecordingRenderer::Create(black());
    scene.OnEditRender(&mut renderer);
    match &renderer.Calls[0] {
        RecordedCall::BeginScene { Env, .. } => {
            assert_eq!(Env.Lights.len(), 1);
            match Env.Lights[0] {
                Light::Directional { Direction, .. } => {
                    assert_eq!(Direction, Vec3 { x: -FX_ONE, y: -2 * FX_ONE, z: -3 * FX_ONE });
                }
                other => panic!("expected a directional light, got {:?}", other),
            }
        }
        other => panic!("first call should begin the scene, got {:?}", other),
    }
}

#[test]
fn viewport_resize_updates_camera_aspect() {
    let mut scene = Scene::Create();
    scene.OnViewportResize(800, 600);
    let camera = scene.GetEditorCamera();
    // 800 / 600 in fixed point, rounded toward zero.
    assert_eq!(camera.GetAspectRatio(), 800 * 65536 / 600);
}

#[test]
fn extraction_call_sequence_and_light_count() {
    let mut scene = Scene::Create();

    // K = 2 sky lights, L = 2 directional, M = 3 point, N = 2 meshes.
    for i in 0..2u64 {
        let e = scene.CreateEntity("sky");
        assert!(e.AttachSkyLight(&mut scene, sky_light(20 + i, 30 + i)));
    }
    for _ in 0..2 {
        let e = scene.CreateEntity("sun");
        assert!(e.AttachDirectionalLight(
            &mut scene,
            DirectionalLightComponent {
                Color: Vec3 { x: FX_ONE, y: FX_ONE, z: FX_ONE },
                Intensity: FX_ONE,
            },
        ));
    }
    for _ in 0..3 {
        let e = scene.CreateEntity("bulb");
        assert!(e.AttachPointLight(
            &mut scene,
            PointLightComponent {
                Color: Vec3 { x: FX_ONE, y: FX_ONE, z: FX_ONE },
                Intensity: FX_ONE,
            },
        ));
    }
    for _ in 0..2 {
        let e = scene.CreateEntity("box");
        assert!(e.AttachMesh(&mut scene, MeshComponent::default()));
    }

    let mut renderer = RecordingRenderer::Create(black());
    scene.OnEditRender(&mut renderer);

    assert_eq!(renderer.Calls.len(), 4); // 1 BeginScene + 2 SubmitMesh + 1 Flush
    match &renderer.Calls[0] {
        RecordedCall::BeginScene { Env, .. } => {
            assert_eq!(Env.Lights.len(), 5); // L + M
        }
        other => panic!("first call should begin the scene, got {:?}", other),
    }
    assert!(matches!(renderer.Calls[1], RecordedCall::SubmitMesh { .. }));
    assert!(matches!(renderer.Calls[2], RecordedCall::SubmitMesh { .. }));
    assert!(matches!(renderer.Calls[3], RecordedCall::Flush));
}

#[test]
fn default_camera_parameters() {
    let mut scene = Scene::Create();
    let camera = scene.GetEditorCamera();
    assert_eq!(camera.FOV, DEFAULT_FOV);
    assert_eq!(camera.FOV, 45 * FX_ONE);
    assert_eq!(camera.Aspect, DEFAULT_ASPECT);
    assert_eq!(camera.Aspect, 16 * FX_ONE / 9);
    assert_eq!(camera.NearClip, DEFAULT_NEAR);
    assert_eq!(camera.NearClip, FX_ONE / 10);
    assert_eq!(camera.FarClip, DEFAULT_FAR);
    assert_eq!(camera.FarClip, 10000 * FX_ONE);
    assert_eq!(camera.Time, 0);
}

#[test]
fn scene_state_transitions_are_unrestricted() {
    let mut scene = Scene::Create();
    assert_eq!(scene.GetSceneState(), SceneState::Edit);
    scene.SetSceneState(SceneState::Running);
    assert_eq!(scene.GetSceneState(), SceneState::Running);
    scene.SetSceneState(SceneState::Edit);
    assert_eq!(scene.GetSceneState(), SceneState::Edit);
}

#[test]
fn update_in_edit_advances_camera_time() {
    let mut scene = Scene::Create();
    assert_eq!(scene.OnUpdate(16), Ok(()));
    assert_eq!(scene.OnUpdate(16), Ok(()));
    let camera = scene.GetEditorCamera();
    assert_eq!(camera.Time, 32);
}

#[test]
fn runtime_paths_signal_not_implemented() {
    let mut scene = Scene::Create();
    scene.SetSceneState(SceneState::Running);
    assert_eq!(scene.OnUpdate(16), Err(SceneError::NotImplemented));

    let mut renderer = RecordingRenderer::Create(black());
    assert_eq!(scene.OnRuntimeRender(&mut renderer), Err(SceneError::NotImplemented));
    assert!(renderer.Calls.is_empty());
}

#[test]
fn lifecycle_hooks_are_noops() {
    let mut scene = Scene::Create();
    let e = scene.CreateEntity("kept");
    scene.OnSceneStart();
    scene.OnSceneEnd();
    assert!(e.IsValid(&scene));
    assert_eq!(scene.GetSceneState(), SceneState::Edit);
}

#[test]
fn invalid_handle_rejects_all_accessors() {
    let mut scene = Scene::Create();
    let bogus = Entity::CreateEmpty();
    assert!(!bogus.IsValid(&scene));
    assert!(bogus.GetTag(&scene).is_none());
    assert!(bogus.GetTransform(&scene).is_none());
    assert!(bogus.GetSkyLight(&scene).is_none());
    assert!(!bogus.AttachMesh(&mut scene, MeshComponent::default()));
    assert!(!bogus.AttachSkyLight(&mut scene, SkyLightComponent::default()));

    // A stale handle from a deleted entity is rejected the same way.
    let e = scene.CreateEntity("gone");
    scene.DeleteEntity(e);
    assert!(!e.IsValid(&scene));
    assert!(e.GetTag(&scene).is_none());
    assert!(!e.AttachMesh(&mut scene, MeshComponent::default()));
}

#[test]
fn deleting_middle_entity_keeps_traversal_order() {
    let mut scene = Scene::Create();
    let _a = scene.CreateEntity("a");
    let b = scene.CreateEntity("b");
    let _c = scene.CreateEntity("c");
    scene.DeleteEntity(b);

    let world = scene.GetWorld();
    assert_eq!(world.Len(), 2);
    assert_eq!(world.EntryAt(0).Tag.Tag, "a");
    assert_eq!(world.EntryAt(1).Tag.Tag, "c");
    assert!(!scene.FindEntity("b").Valid);
}

#[test]
fn default_mesh_component_references_unit_cube() {
    let m = MeshComponent::default();
    assert_eq!(m.Mesh.ID, 0);
    assert_eq!(m.Mesh.Filepath, "");
    assert!(m.Materials.is_empty());
    let cube = MeshRef::UnitCube();
    assert_eq!(cube.ID, m.Mesh.ID);
}

#[test]
fn default_light_components() {
    let sky = SkyLightComponent::default();
    assert_eq!(sky.EnvironmentMap, (black(), black()));
    assert_eq!(sky.Intensity, FX_ONE);

    let sun = DirectionalLightComponent::default();
    assert_eq!(sun.Color, Vec3 { x: FX_ONE, y: FX_ONE, z: FX_ONE });
    assert_eq!(sun.Intensity, FX_ONE);

    let bulb = PointLightComponent::default();
    assert_eq!(bulb.Color, Vec3 { x: FX_ONE, y: FX_ONE, z: FX_ONE });
    assert_eq!(bulb.Intensity, FX_ONE);
}

#[test]
fn point_light_sits_at_transform_position() {
    let mut scene = Scene::Create();
    let e = scene.CreateEntity("bulb");
    let mut t = e.GetTransform(&scene).unwrap();
    t.Position = Vec3 { x: 4 * FX_ONE, y: 5 * FX_ONE, z: 6 * FX_ONE };
    assert!(e.SetTransform(&mut scene, t));
    assert!(e.AttachPointLight(
        &mut scene,
        PointLightComponent { Color: Vec3 { x: FX_ONE, y: 0, z: 0 }, Intensity: 2 * FX_ONE },
    ));

    let mut renderer = RecordingRenderer::Create(black());
    scene.OnEditRender(&mut renderer);
    match &renderer.Calls[0] {
        RecordedCall::BeginScene { Env, .. } => match Env.Lights[0] {
            Light::Point { Color, Intensity, Position } => {
                assert_eq!(Color, Vec3 { x: FX_ONE, y: 0, z: 0 });
                assert_eq!(Intensity, 2 * FX_ONE);
                assert_eq!(Position, Vec3 { x: 4 * FX_ONE, y: 5 * FX_ONE, z: 6 * FX_ONE });
            }
            other => panic!("expected a point light, got {:?}", other),
        },
        other => panic!("first call should begin the scene, got {:?}", other),
    }
}
