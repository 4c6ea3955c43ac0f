//! The scene: owner of the world store, a camera and the scene state, with
//! the entity lifecycle and the per-frame extraction pass that drives a
//! renderer.

use vstd::prelude::*;
use vstd::assert_seqs_equal;
use crate::camera::{EditorCamera, advanced_spec, aspect_spec};
use crate::component::{SkyLightComponent, TagComponent, TransformComponent};
use crate::fixed::FX_ONE;
use crate::entity::Entity;
use crate::math::{MatTranspose, Vec3, Vec3V, transpose_spec};
use crate::renderer::{
    Environment, EnvironmentV, Light, LightV, RenderCall, SceneRenderer,
};
use crate::component::{MeshRef, TextureRef};
use crate::world::{
    EntryV, World, contains_id, find_by_tag_spec, lemma_find_by_tag_none,
    lemma_find_by_tag_some, transforms_in_range,
};

verus! {

/// Default vertical field of view of the editor camera, in fixed-point
/// degrees.
pub const DEFAULT_FOV: i64 = 45 * FX_ONE;

/// Default aspect ratio of the editor camera: 16:9 in fixed point, rounded
/// toward zero.
pub const DEFAULT_ASPECT: i64 = 116508;

/// Default near clip plane of the editor camera: a tenth of a unit in fixed
/// point, rounded toward zero.
pub const DEFAULT_NEAR: i64 = 6553;

/// Default far clip plane of the editor camera.
pub const DEFAULT_FAR: i64 = 10000 * FX_ONE;

/// The sky-light component of the first entity carrying one, in traversal
/// order; later sky lights are ignored.
pub open spec fn first_sky_light(w: Seq<EntryV>) -> Option<SkyLightComponent>
    decreases w.len(),
{
    if w.len() == 0 {
        None
    } else if w[0].SkyLight is Some {
        w[0].SkyLight
    } else {
        first_sky_light(w.drop_first())
    }
}

/// The environment map a frame uses: the cube-texture pair of the first sky
/// light, or the renderer's default black pair if there is none.
pub open spec fn env_map_spec(w: Seq<EntryV>, black: TextureRef) -> (TextureRef, TextureRef) {
    match first_sky_light(w) {
        Some(slc) => (slc.EnvironmentMap.0, slc.EnvironmentMap.1),
        None => (black, black),
    }
}

/// The light synthesized from a directional-light entity: the component's
/// color and intensity, and a direction equal to the negated world position
/// of the entity — a deliberate convention of the backend, preserved
/// exactly.
pub open spec fn directional_light_of(e: EntryV) -> LightV {
    LightV::Directional {
        Color: e.DirectionalLight->Some_0.Color@,
        Intensity: e.DirectionalLight->Some_0.Intensity as int,
        Direction: (Vec3V {
            x: -(e.Transform.Position.x as int),
            y: -(e.Transform.Position.y as int),
            z: -(e.Transform.Position.z as int),
        }),
    }
}

/// The lights synthesized from the directional-light entities, in traversal
/// order.
pub open spec fn directional_lights_spec(w: Seq<EntryV>) -> Seq<LightV>
    decreases w.len(),
{
    if w.len() == 0 {
        Seq::<LightV>::empty()
    } else {
        let rest = directional_lights_spec(w.drop_last());
        if w.last().DirectionalLight is Some {
            rest.push(directional_light_of(w.last()))
        } else {
            rest
        }
    }
}

/// The light synthesized from a point-light entity: the component's color
/// and intensity at the transform's position.
pub open spec fn point_light_of(e: EntryV) -> LightV {
    LightV::Point {
        Color: e.PointLight->Some_0.Color@,
        Intensity: e.PointLight->Some_0.Intensity as int,
        Position: e.Transform.Position@,
    }
}

/// The lights synthesized from the point-light entities, in traversal
/// order.
pub open spec fn point_lights_spec(w: Seq<EntryV>) -> Seq<LightV>
    decreases w.len(),
{
    if w.len() == 0 {
        Seq::<LightV>::empty()
    } else {
        let rest = point_lights_spec(w.drop_last());
        if w.last().PointLight is Some {
            rest.push(point_light_of(w.last()))
        } else {
            rest
        }
    }
}

/// A frame's light list: all directional lights, then all point lights,
/// each group in traversal order.
pub open spec fn lights_spec(w: Seq<EntryV>) -> Seq<LightV> {
    directional_lights_spec(w) + point_lights_spec(w)
}

/// The full environment a frame begins with.
pub open spec fn env_spec(w: Seq<EntryV>, black: TextureRef) -> EnvironmentV {
    EnvironmentV { EnvironmentMap: env_map_spec(w, black), Lights: lights_spec(w) }
}

/// The submission of a mesh entity: its mesh handle, the transpose of its
/// model matrix — the backend's row/column convention — and its materials.
pub open spec fn submission_of(e: EntryV) -> RenderCall {
    RenderCall::SubmitMesh {
        Mesh: e.Mesh->Some_0.Mesh,
        Transform: transpose_spec(e.Transform.model_matrix_spec()),
        Materials: e.Mesh->Some_0.Materials,
    }
}

/// The mesh submissions of a frame, in traversal order.
pub open spec fn submissions_spec(w: Seq<EntryV>) -> Seq<RenderCall>
    decreases w.len(),
{
    if w.len() == 0 {
        Seq::<RenderCall>::empty()
    } else {
        let rest = submissions_spec(w.drop_last());
        if w.last().Mesh is Some {
            rest.push(submission_of(w.last()))
        } else {
            rest
        }
    }
}

/// Every renderer call of one extraction pass, in order: one `BeginScene`
/// with the camera and the environment, one `SubmitMesh` per mesh entity in
/// traversal order, then one `Flush`.
pub open spec fn extraction_calls_spec(
    w: Seq<EntryV>,
    camera: EditorCamera,
    black: TextureRef,
) -> Seq<RenderCall> {
    seq![RenderCall::BeginScene { Camera: camera, Env: env_spec(w, black) }]
        + submissions_spec(w)
        + seq![RenderCall::Flush]
}

/// If `i` is the first index carrying a sky light, that sky light is the
/// one extraction uses.
pub proof fn lemma_first_sky_some(w: Seq<EntryV>, i: int)
    requires
        0 <= i < w.len(),
        w[i].SkyLight is Some,
        forall|j: int| 0 <= j < i ==> w[j].SkyLight is None,
    ensures
        first_sky_light(w) == w[i].SkyLight,
    decreases i,
{
    if i > 0 {
        assert forall|j: int| 0 <= j < i - 1 implies w.drop_first()[j].SkyLight is None by {
            assert(w.drop_first()[j] == w[j + 1]);
        }
        assert(w.drop_first()[i - 1] == w[i]);
        lemma_first_sky_some(w.drop_first(), i - 1);
    }
}

/// With no sky light anywhere, extraction keeps the default map.
pub proof fn lemma_first_sky_none(w: Seq<EntryV>)
    requires
        forall|j: int| 0 <= j < w.len() ==> w[j].SkyLight is None,
    ensures
        first_sky_light(w) is None,
    decreases w.len(),
{
    if w.len() > 0 {
        assert forall|j: int| 0 <= j < w.drop_first().len() implies w.drop_first()[j].SkyLight is None by {
            assert(w.drop_first()[j] == w[j + 1]);
        }
        lemma_first_sky_none(w.drop_first());
    }
}

/// Number of entities carrying a mesh component.
pub open spec fn mesh_count(w: Seq<EntryV>) -> nat
    decreases w.len(),
{
    if w.len() == 0 {
        0
    } else {
        mesh_count(w.drop_last()) + if w.last().Mesh is Some {
            1nat
        } else {
            0nat
        }
    }
}

/// Number of entities carrying a directional-light component.
pub open spec fn directional_count(w: Seq<EntryV>) -> nat
    decreases w.len(),
{
    if w.len() == 0 {
        0
    } else {
        directional_count(w.drop_last()) + if w.last().DirectionalLight is Some {
            1nat
        } else {
            0nat
        }
    }
}

/// Number of entities carrying a point-light component.
pub open spec fn point_count(w: Seq<EntryV>) -> nat
    decreases w.len(),
{
    if w.len() == 0 {
        0
    } else {
        point_count(w.drop_last()) + if w.last().PointLight is Some {
            1nat
        } else {
            0nat
        }
    }
}

/// With zero sky lights the frame's environment map is the renderer's
/// default black cube-texture pair.
pub proof fn lemma_env_map_default(w: Seq<EntryV>, black: TextureRef)
    requires
        forall|j: int| 0 <= j < w.len() ==> w[j].SkyLight is None,
    ensures
        env_map_spec(w, black) == (black, black),
{
    lemma_first_sky_none(w);
}

/// With several sky lights in storage, only the first in traversal order is
/// used; the insertion order alone decides which.
pub proof fn lemma_env_map_first_wins(w: Seq<EntryV>, black: TextureRef, i: int)
    requires
        0 <= i < w.len(),
        w[i].SkyLight is Some,
        forall|j: int| 0 <= j < i ==> w[j].SkyLight is None,
    ensures
        env_map_spec(w, black) == (
            w[i].SkyLight->Some_0.EnvironmentMap.0,
            w[i].SkyLight->Some_0.EnvironmentMap.1,
        ),
{
    lemma_first_sky_some(w, i);
}

/// Every directional-light entity contributes a light whose direction is
/// exactly its negated world position (the backend's convention).
pub proof fn lemma_directional_direction(w: Seq<EntryV>, i: int)
    requires
        0 <= i < w.len(),
        w[i].DirectionalLight is Some,
    ensures
        directional_lights_spec(w).contains(directional_light_of(w[i])),
        lights_spec(w).contains(directional_light_of(w[i])),
    decreases w.len(),
{
    let l = directional_light_of(w[i]);
    if i == w.len() - 1 {
        let rest = directional_lights_spec(w.drop_last());
        assert(w.last() == w[i]);
        assert(directional_lights_spec(w)[rest.len() as int] == l);
    } else {
        lemma_directional_direction(w.drop_last(), i);
        assert(w.drop_last()[i] == w[i]);
        let rest = directional_lights_spec(w.drop_last());
        let k = choose|k: int| 0 <= k < rest.len() && rest[k] == l;
        assert(directional_lights_spec(w)[k] == l);
    }
    let k2 = choose|k: int| 0 <= k < directional_lights_spec(w).len()
        && directional_lights_spec(w)[k] == l;
    assert(lights_spec(w)[k2] == l);
}

/// The submissions of a frame are as many as the mesh entities.
pub proof fn lemma_submissions_len(w: Seq<EntryV>)
    ensures
        submissions_spec(w).len() == mesh_count(w),
    decreases w.len(),
{
    if w.len() > 0 {
        lemma_submissions_len(w.drop_last());
    }
}

/// Every submission of a frame is a mesh submission.
pub proof fn lemma_submissions_are_submits(w: Seq<EntryV>)
    ensures
        forall|k: int| 0 <= k < submissions_spec(w).len()
            ==> #[trigger] submissions_spec(w)[k] is SubmitMesh,
    decreases w.len(),
{
    if w.len() > 0 {
        lemma_submissions_are_submits(w.drop_last());
    }
}

/// The directional lights of a frame are as many as the directional-light
/// entities.
pub proof fn lemma_directional_len(w: Seq<EntryV>)
    ensures
        directional_lights_spec(w).len() == directional_count(w),
    decreases w.len(),
{
    if w.len() > 0 {
        lemma_directional_len(w.drop_last());
    }
}

/// The point lights of a frame are as many as the point-light entities.
pub proof fn lemma_point_len(w: Seq<EntryV>)
    ensures
        point_lights_spec(w).len() == point_count(w),
    decreases w.len(),
{
    if w.len() > 0 {
        lemma_point_len(w.drop_last());
    }
}

/// Shape of one extraction pass, for any store contents: exactly one
/// `BeginScene` first, then exactly one `SubmitMesh` per mesh entity, then
/// exactly one `Flush` — and the environment's light list holds one light
/// per directional-light entity plus one per point-light entity.
pub proof fn lemma_extraction_shape(w: Seq<EntryV>, camera: EditorCamera, black: TextureRef)
    ensures
        ({
            let calls = extraction_calls_spec(w, camera, black);
            &&& calls.len() == 2 + mesh_count(w)
            &&& calls[0] == (RenderCall::BeginScene { Camera: camera, Env: env_spec(w, black) })
            &&& calls[calls.len() - 1] == RenderCall::Flush
            &&& forall|k: int| 1 <= k < calls.len() - 1 ==> #[trigger] calls[k] is SubmitMesh
            &&& env_spec(w, black).Lights.len() == directional_count(w) + point_count(w)
        }),
{
    lemma_submissions_len(w);
    lemma_submissions_are_submits(w);
    lemma_directional_len(w);
    lemma_point_len(w);
    let calls = extraction_calls_spec(w, camera, black);
    assert forall|k: int| 1 <= k < calls.len() - 1 implies #[trigger] calls[k] is SubmitMesh by {
        assert(calls[k] == submissions_spec(w)[k - 1]);
    }
}

/// The scene's mode: editing, or running the simulation. Transitions are
/// explicit and unrestricted; running behavior beyond state storage is
/// deliberately not implemented yet.
#[derive(Clone, Copy, Debug, PartialEq, Eq, Structural)]
pub enum SceneState {
    Edit,
    Running,
}

/// Failure signal of a deliberately deferred code path, distinct from both
/// success and a caller bug.
#[derive(Clone, Copy, Debug, PartialEq, Eq, Structural)]
pub enum SceneError {
    NotImplemented,
}

/// A scene: the exclusive owner of a world store, one editor camera, the
/// scene state and the cached viewport size.
#[derive(Debug)]
pub struct Scene {
    m_World: World,
    m_State: SceneState,
    m_ViewportSize: (u32, u32),
    m_EditorCamera: EditorCamera,
}

impl Scene {
    /// The world store owned by this scene.
    pub closed spec fn world_state(&self) -> World {
        self.m_World
    }

    /// The entities of this scene, in traversal order.
    pub open spec fn world_view(&self) -> Seq<EntryV> {
        self.world_state()@
    }

    /// The scene invariant: its store is well-formed.
    pub open spec fn wf(&self) -> bool {
        self.world_state().wf()
    }

    /// Room for one more entity identity.
    pub open spec fn can_allocate(&self) -> bool {
        self.world_state().can_allocate()
    }

    /// The editor camera.
    pub closed spec fn camera_spec(&self) -> EditorCamera {
        self.m_EditorCamera
    }

    /// The scene state.
    pub closed spec fn state_spec(&self) -> SceneState {
        self.m_State
    }

    /// The cached viewport size.
    pub closed spec fn viewport_spec(&self) -> (u32, u32) {
        self.m_ViewportSize
    }

    /// A new empty scene in edit state, with the default editor camera.
    pub fn Create() -> (r: Scene)
        ensures
            r.wf(),
            r.can_allocate(),
            r.world_view() == Seq::<EntryV>::empty(),
            r.state_spec() == SceneState::Edit,
            r.viewport_spec() == (0u32, 0u32),
            r.camera_spec() == (EditorCamera {
                FOV: DEFAULT_FOV,
                Aspect: DEFAULT_ASPECT,
                NearClip: DEFAULT_NEAR,
                FarClip: DEFAULT_FAR,
                Time: 0,
            }),
    {
        Scene {
            m_World: World::Create(),
            m_State: SceneState::Edit,
            m_ViewportSize: (0, 0),
            m_EditorCamera: EditorCamera::Create(DEFAULT_FOV, DEFAULT_ASPECT, DEFAULT_NEAR, DEFAULT_FAR),
        }
    }

    /// Creates an entity carrying a tag with the given name and a default
    /// transform, and returns a handle to it.
    pub fn CreateEntity(&mut self, name: &str) -> (r: Entity)
        requires
            old(self).wf(),
            old(self).can_allocate(),
        ensures
            final(self).wf(),
            r.Valid,
            !contains_id(old(self).world_view(), r.ID),
            final(self).world_view() == old(self).world_view().push(EntryV {
                ID: r.ID,
                Tag: name@,
                Transform: (TransformComponent {
                    Position: Vec3 { x: 0, y: 0, z: 0 },
                    Rotation: Vec3 { x: 0, y: 0, z: 0 },
                    Scale: Vec3 { x: FX_ONE, y: FX_ONE, z: FX_ONE },
                }),
                Mesh: None,
                SkyLight: None,
                DirectionalLight: None,
                PointLight: None,
            }),
            final(self).camera_spec() == old(self).camera_spec(),
            final(self).state_spec() == old(self).state_spec(),
            final(self).viewport_spec() == old(self).viewport_spec(),
    {
        // Every entity must have a transform and tag component.
        let transformComponent = TransformComponent::default();
        let tagComponent = TagComponent { Tag: name.to_owned() };
        let entityID = self.m_World.Push(tagComponent, transformComponent);

        Entity::Create(entityID)
    }

    /// Removes an entity and all its components. The handle must refer to a
    /// live entity of this scene; a stale handle is a caller bug.
    pub fn DeleteEntity(&mut self, entity: Entity)
        requires
            old(self).wf(),
            entity.Valid,
            contains_id(old(self).world_view(), entity.ID),
        ensures
            final(self).wf(),
            final(self).can_allocate() == old(self).can_allocate(),
            exists|i: int| {
                &&& 0 <= i < old(self).world_view().len()
                &&& old(self).world_view()[i].ID == entity.ID
                &&& final(self).world_view() == old(self).world_view().remove(i)
            },
            final(self).camera_spec() == old(self).camera_spec(),
            final(self).state_spec() == old(self).state_spec(),
            final(self).viewport_spec() == old(self).viewport_spec(),
    {
        self.m_World.Remove(entity.GetID());
    }

    /// Linear scan for the first entity whose tag equals `name`, in
    /// traversal order; a miss returns the invalid handle and is not an
    /// error.
    pub fn FindEntity(&self, name: &str) -> (r: Entity)
        ensures
            match find_by_tag_spec(self.world_view(), name@) {
                Some(e) => r == (Entity { ID: e.ID, Valid: true }),
                None => !r.Valid,
            },
    {
        let needle: String = name.to_owned();
        let n = self.m_World.Len();
        let mut i: usize = 0;
        while i < n
            invariant
                n == self.world_view().len(),
                i <= n,
                needle@ == name@,
                forall|j: int| 0 <= j < i ==> self.world_view()[j].Tag != name@,
            decreases n - i,
        {
            let e = self.m_World.EntryAt(i);
            if e.Tag.Tag == needle {
                proof {
                    lemma_find_by_tag_some(self.world_view(), name@, i as int);
                }
                return Entity::Create(e.ID);
            }
            i = i + 1;
        }
        proof {
            lemma_find_by_tag_none(self.world_view(), name@);
        }
        Entity::CreateEmpty()
    }

    /// Lifecycle hook reserved for future activation of runtime behavior;
    /// currently a no-op.
    pub fn OnSceneStart(&mut self)
        ensures
            *final(self) == *old(self),
    {
    }

    /// Lifecycle hook reserved for future deactivation of runtime behavior;
    /// currently a no-op.
    pub fn OnSceneEnd(&mut self)
        ensures
            *final(self) == *old(self),
    {
    }

    /// Advances the camera by the elapsed timestep. In edit state nothing
    /// else changes; the running state's update is deliberately not
    /// implemented yet and says so.
    pub fn OnUpdate(&mut self, ts: i64) -> (r: Result<(), SceneError>)
        requires
            ts >= 0,
        ensures
            old(self).state_spec() == SceneState::Edit ==> {
                &&& r == Result::<(), SceneError>::Ok(())
                &&& final(self).camera_spec() == advanced_spec(old(self).camera_spec(), ts as int)
                &&& final(self).world_state() == old(self).world_state()
                &&& final(self).state_spec() == old(self).state_spec()
                &&& final(self).viewport_spec() == old(self).viewport_spec()
            },
            old(self).state_spec() == SceneState::Running ==> {
                &&& r == Result::<(), SceneError>::Err(SceneError::NotImplemented)
                &&& *final(self) == *old(self)
            },
    {
        match self.m_State {
            SceneState::Edit => {
                self.m_EditorCamera.OnUpdate(ts);
                Ok(())
            },
            SceneState::Running => Err(SceneError::NotImplemented),
        }
    }

    /// The extraction pass: a read-only sweep over the current store that
    /// drives the renderer through one frame. The first sky light found
    /// becomes the ambient environment; every directional and point light
    /// is synthesized from its component and transform; then the frame is
    /// begun, every mesh entity is submitted in traversal order with the
    /// transpose of its model matrix, and the frame is flushed.
    #[verifier::rlimit(50)]
    pub fn OnEditRender<R: SceneRenderer>(&self, renderer: &mut R)
        requires
            self.wf(),
        ensures
            final(renderer).calls() == old(renderer).calls() + extraction_calls_spec(
                self.world_view(),
                self.camera_spec(),
                old(renderer).black_cube(),
            ),
            final(renderer).black_cube() == old(renderer).black_cube(),
    {
        proof {
            self.m_World.lemma_wf_view();
        }
        let ghost w = self.world_view();
        let black = renderer.GetBlackTextureCube();

        // Set up the environment.
        let mut environment = Environment::Create(black, black);
        let n = self.m_World.Len();

        // Sky light: the first one in traversal order wins; the rest are
        // silently ignored.
        let mut i: usize = 0;
        let mut found = false;
        while i < n && !found
            invariant
                n == w.len(),
                w == self.world_view(),
                i <= n,
                !found ==> forall|j: int| 0 <= j < i ==> w[j].SkyLight is None,
                !found ==> environment@.EnvironmentMap == (black, black),
                found ==> environment@.EnvironmentMap == env_map_spec(w, black),
                environment@.Lights == Seq::<LightV>::empty(),
            decreases n - i + (if found { 0int } else { 1int }),
        {
            let e = self.m_World.EntryAt(i);
            match &e.SkyLight {
                Some(slc) => {
                    environment.SetEnvironmentMap(slc.EnvironmentMap.0, slc.EnvironmentMap.1);
                    found = true;
                    proof {
                        lemma_first_sky_some(w, i as int);
                    }
                },
                None => {
                    i = i + 1;
                },
            }
        }
        if !found {
            proof {
                lemma_first_sky_none(w);
            }
        }

        // Directional lights.
        let mut i: usize = 0;
        while i < n
            invariant
                n == w.len(),
                w == self.world_view(),
                self.wf(),
                transforms_in_range(w),
                i <= n,
                environment@.EnvironmentMap == env_map_spec(w, black),
                environment@.Lights == directional_lights_spec(w.take(i as int)),
            decreases n - i,
        {
            let e = self.m_World.EntryAt(i);
            proof {
                assert(w[i as int].Transform.in_range());
                assert(w.take(i as int + 1).drop_last() == w.take(i as int));
                assert(w.take(i as int + 1).last() == w[i as int]);
            }
            match &e.DirectionalLight {
                Some(dlc) => {
                    let tc = &e.Transform;
                    let light = Light::CreateDirectionalLight(
                        dlc.Color,
                        dlc.Intensity,
                        Vec3::Create(-tc.Position.x, -tc.Position.y, -tc.Position.z),
                    );
                    environment.AddLight(light);
                },
                None => {},
            }
            i = i + 1;
        }
        proof {
            assert(w.take(n as int) == w);
        }

        // Point lights.
        let mut i: usize = 0;
        while i < n
            invariant
                n == w.len(),
                w == self.world_view(),
                self.wf(),
                i <= n,
                environment@.EnvironmentMap == env_map_spec(w, black),
                environment@.Lights == directional_lights_spec(w) + point_lights_spec(w.take(i as int)),
            decreases n - i,
        {
            let e = self.m_World.EntryAt(i);
            proof {
                assert(w.take(i as int + 1).drop_last() == w.take(i as int));
                assert(w.take(i as int + 1).last() == w[i as int]);
            }
            match &e.PointLight {
                Some(plc) => {
                    let tc = &e.Transform;
                    let light = Light::CreatePointLight(plc.Color, plc.Intensity, tc.Position);
                    environment.AddLight(light);
                    proof {
                        assert_seqs_equal!(environment@.Lights ==
                            directional_lights_spec(w) + point_lights_spec(w.take(i as int)).push(point_light_of(w[i as int])));
                    }
                },
                None => {},
            }
            i = i + 1;
        }
        proof {
            assert(w.take(n as int) == w);
            assert(environment@ == env_spec(w, black));
        }

        renderer.BeginScene(&self.m_EditorCamera, environment);
        let ghost calls1 = renderer.calls();

        // Meshes, in traversal order.
        let mut i: usize = 0;
        while i < n
            invariant
                n == w.len(),
                w == self.world_view(),
                self.wf(),
                transforms_in_range(w),
                i <= n,
                renderer.calls() == calls1 + submissions_spec(w.take(i as int)),
                renderer.black_cube() == old(renderer).black_cube(),
            decreases n - i,
        {
            let e = self.m_World.EntryAt(i);
            proof {
                assert(w[i as int].Transform.in_range());
                assert(w.take(i as int + 1).drop_last() == w.take(i as int));
                assert(w.take(i as int + 1).last() == w[i as int]);
            }
            match &e.Mesh {
                Some(mc) => {
                    let mesh = MeshRef { ID: mc.Mesh.ID, Filepath: mc.Mesh.Filepath.clone() };
                    let matrix = e.Transform.Transform();
                    renderer.SubmitMesh(mesh, MatTranspose(&matrix), &mc.Materials);
                    proof {
                        assert_seqs_equal!(renderer.calls() ==
                            calls1 + submissions_spec(w.take(i as int)).push(submission_of(w[i as int])));
                    }
                },
                None => {},
            }
            i = i + 1;
        }
        proof {
            assert(w.take(n as int) == w);
        }

        renderer.Flush();
        proof {
            assert_seqs_equal!(renderer.calls() == old(renderer).calls()
                + extraction_calls_spec(w, self.camera_spec(), old(renderer).black_cube()));
        }
    }

    /// Runtime rendering is deliberately not implemented yet; invoking it
    /// says so instead of silently doing nothing.
    pub fn OnRuntimeRender<R: SceneRenderer>(&self, renderer: &mut R) -> (r: Result<(), SceneError>)
        ensures
            r == Result::<(), SceneError>::Err(SceneError::NotImplemented),
            *final(renderer) == *old(renderer),
    {
        Err(SceneError::NotImplemented)
    }

    /// Stores the new viewport size and recomputes the camera projection
    /// for it.
    pub fn OnViewportResize(&mut self, viewportWidth: u32, viewportHeight: u32)
        requires
            viewportHeight >= 1,
        ensures
            final(self).viewport_spec() == (viewportWidth, viewportHeight),
            final(self).camera_spec() == (EditorCamera {
                Aspect: aspect_spec(viewportWidth as int, viewportHeight as int) as i64,
                ..old(self).camera_spec()
            }),
            final(self).camera_spec().Aspect as int
                == aspect_spec(viewportWidth as int, viewportHeight as int),
            final(self).world_state() == old(self).world_state(),
            final(self).state_spec() == old(self).state_spec(),
    {
        self.m_ViewportSize = (viewportWidth, viewportHeight);
        self.m_EditorCamera.SetViewportSize(viewportWidth, viewportHeight);
    }

    /// Switches the scene state; no transition table is enforced.
    pub fn SetSceneState(&mut self, state: SceneState)
        ensures
            final(self).state_spec() == state,
            final(self).world_state() == old(self).world_state(),
            final(self).camera_spec() == old(self).camera_spec(),
            final(self).viewport_spec() == old(self).viewport_spec(),
    {
        self.m_State = state;
    }

    /// The current scene state.
    pub fn GetSceneState(&self) -> (r: SceneState)
        ensures
            r == self.state_spec(),
    {
        self.m_State
    }

    /// The editor camera, for direct manipulation.
    pub fn GetEditorCamera(&mut self) -> (r: &mut EditorCamera)
        ensures
            *r == old(self).camera_spec(),
            final(self).camera_spec() == *final(r),
            final(self).world_state() == old(self).world_state(),
            final(self).state_spec() == old(self).state_spec(),
            final(self).viewport_spec() == old(self).viewport_spec(),
    {
        &mut self.m_EditorCamera
    }

    /// Read access to the world store.
    pub fn GetWorld(&self) -> (r: &World)
        ensures
            *r == self.world_state(),
    {
        &self.m_World
    }

    /// Write access to the world store.
    pub fn GetWorldMut(&mut self) -> (r: &mut World)
        ensures
            *r == old(self).world_state(),
            final(self).world_state() == *final(r),
            final(self).camera_spec() == old(self).camera_spec(),
            final(self).state_spec() == old(self).state_spec(),
            final(self).viewport_spec() == old(self).viewport_spec(),
    {
        &mut self.m_World
    }
}

} // verus!
