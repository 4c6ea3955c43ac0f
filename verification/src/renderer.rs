//! The renderer-facing side of extraction: lights, the per-frame
//! environment aggregate, and the renderer interface the extraction pass
//! drives. A recording renderer is provided so the call sequence of a frame
//! can be observed and tested.

use vstd::prelude::*;
use vstd::assert_seqs_equal;
use crate::camera::EditorCamera;
use crate::component::{MaterialRef, MeshRef, MeshRefV, TextureRef};
use crate::math::{Mat4, Mat4V, Vec3, Vec3V};

verus! {

/// A dynamic light synthesized during extraction.
#[derive(Clone, Copy, Debug, PartialEq, Eq, Structural)]
pub enum Light {
    Directional { Color: Vec3, Intensity: i64, Direction: Vec3 },
    Point { Color: Vec3, Intensity: i64, Position: Vec3 },
}

/// The mathematical value of a light.
pub enum LightV {
    Directional { Color: Vec3V, Intensity: int, Direction: Vec3V },
    Point { Color: Vec3V, Intensity: int, Position: Vec3V },
}

impl View for Light {
    type V = LightV;

    open spec fn view(&self) -> LightV {
        match *self {
            Light::Directional { Color, Intensity, Direction } => LightV::Directional {
                Color: Color@,
                Intensity: Intensity as int,
                Direction: Direction@,
            },
            Light::Point { Color, Intensity, Position } => LightV::Point {
                Color: Color@,
                Intensity: Intensity as int,
                Position: Position@,
            },
        }
    }
}

impl Light {
    /// A directional light with an explicit direction vector.
    pub fn CreateDirectionalLight(color: Vec3, intensity: i64, direction: Vec3) -> (r: Light)
        ensures
            r == (Light::Directional { Color: color, Intensity: intensity, Direction: direction }),
    {
        Light::Directional { Color: color, Intensity: intensity, Direction: direction }
    }

    /// A point light at an explicit position.
    pub fn CreatePointLight(color: Vec3, intensity: i64, position: Vec3) -> (r: Light)
        ensures
            r == (Light::Point { Color: color, Intensity: intensity, Position: position }),
    {
        Light::Point { Color: color, Intensity: intensity, Position: position }
    }
}

/// The per-frame aggregate of ambient lighting and dynamic lights handed to
/// the renderer with `BeginScene`.
#[derive(Debug)]
pub struct Environment {
    pub EnvironmentMap: (TextureRef, TextureRef),
    pub Lights: Vec<Light>,
}

/// The mathematical value of an environment.
pub struct EnvironmentV {
    pub EnvironmentMap: (TextureRef, TextureRef),
    pub Lights: Seq<LightV>,
}

impl View for Environment {
    type V = EnvironmentV;

    open spec fn view(&self) -> EnvironmentV {
        EnvironmentV {
            EnvironmentMap: self.EnvironmentMap,
            Lights: self.Lights@.map_values(|l: Light| l@),
        }
    }
}

impl Environment {
    /// An empty environment whose map is the given default cube-texture
    /// pair.
    pub fn Create(diffuse: TextureRef, specular: TextureRef) -> (r: Environment)
        ensures
            r@.EnvironmentMap == (diffuse, specular),
            r@.Lights == Seq::<LightV>::empty(),
    {
        let r = Environment { EnvironmentMap: (diffuse, specular), Lights: Vec::new() };
        proof {
            assert_seqs_equal!(r@.Lights == Seq::<LightV>::empty());
        }
        r
    }

    /// Replaces the environment map.
    pub fn SetEnvironmentMap(&mut self, diffuse: TextureRef, specular: TextureRef)
        ensures
            final(self)@.EnvironmentMap == (diffuse, specular),
            final(self)@.Lights == old(self)@.Lights,
    {
        self.EnvironmentMap = (diffuse, specular);
    }

    /// Appends a light; no count cap is enforced at this layer.
    pub fn AddLight(&mut self, light: Light)
        ensures
            final(self)@.EnvironmentMap == old(self)@.EnvironmentMap,
            final(self)@.Lights == old(self)@.Lights.push(light@),
    {
        let ghost oldlights = self@.Lights;
        let ghost lv = light@;
        self.Lights.push(light);
        proof {
            assert_seqs_equal!(self@.Lights == oldlights.push(lv));
        }
    }
}

/// One call received by a renderer, as a mathematical value.
pub enum RenderCall {
    BeginScene { Camera: EditorCamera, Env: EnvironmentV },
    SubmitMesh { Mesh: MeshRefV, Transform: Mat4V, Materials: Seq<MaterialRef> },
    Flush,
}

/// The renderer interface the extraction pass drives. A frame is one
/// `BeginScene`, any number of `SubmitMesh` calls, then one `Flush`; the
/// trait records the call sequence so that contracts can pin it down.
pub trait SceneRenderer: Sized {
    /// The calls received so far, oldest first. The default stands for a
    /// renderer that keeps no record; a renderer whose record matters
    /// defines its own.
    open spec fn calls(&self) -> Seq<RenderCall> {
        Seq::<RenderCall>::empty()
    }

    /// The renderer's default black cube texture.
    open spec fn black_cube(&self) -> TextureRef {
        TextureRef { ID: 0 }
    }

    /// Hands out the default black cube texture used when a scene has no
    /// sky light.
    fn GetBlackTextureCube(&self) -> (r: TextureRef)
        ensures
            r == self.black_cube();

    /// Starts a frame with a camera and the scene environment; must precede
    /// any mesh submission.
    fn BeginScene(&mut self, camera: &EditorCamera, environment: Environment)
        ensures
            final(self).calls() == old(self).calls().push(RenderCall::BeginScene {
                Camera: *camera,
                Env: environment@,
            }),
            final(self).black_cube() == old(self).black_cube();

    /// Submits one mesh with its (already transposed) model matrix and
    /// materials.
    fn SubmitMesh(&mut self, mesh: MeshRef, transform: Mat4, materials: &Vec<MaterialRef>)
        ensures
            final(self).calls() == old(self).calls().push(RenderCall::SubmitMesh {
                Mesh: mesh@,
                Transform: transform@,
                Materials: materials@,
            }),
            final(self).black_cube() == old(self).black_cube();

    /// Ends the frame's geometry, exactly once, after all submissions.
    fn Flush(&mut self)
        ensures
            final(self).calls() == old(self).calls().push(RenderCall::Flush),
            final(self).black_cube() == old(self).black_cube();
}

/// One recorded renderer call, as plain data.
#[derive(Debug)]
pub enum RecordedCall {
    BeginScene { Camera: EditorCamera, Env: Environment },
    SubmitMesh { Mesh: MeshRef, Transform: Mat4, Materials: Vec<MaterialRef> },
    Flush,
}

impl View for RecordedCall {
    type V = RenderCall;

    open spec fn view(&self) -> RenderCall {
        match self {
            RecordedCall::BeginScene { Camera, Env } => RenderCall::BeginScene {
                Camera: *Camera,
                Env: Env@,
            },
            RecordedCall::SubmitMesh { Mesh, Transform, Materials } => RenderCall::SubmitMesh {
                Mesh: Mesh@,
                Transform: Transform@,
                Materials: Materials@,
            },
            RecordedCall::Flush => RenderCall::Flush,
        }
    }
}

/// A renderer that performs no drawing and records every call it receives,
/// for tests and frame inspection.
#[derive(Debug)]
pub struct RecordingRenderer {
    pub Calls: Vec<RecordedCall>,
    pub BlackCube: TextureRef,
}

impl RecordingRenderer {
    /// An empty recording renderer whose black cube texture is `black`.
    pub fn Create(black: TextureRef) -> (r: RecordingRenderer)
        ensures
            r.calls() == Seq::<RenderCall>::empty(),
            r.black_cube() == black,
    {
        let r = RecordingRenderer { Calls: Vec::new(), BlackCube: black };
        proof {
            assert_seqs_equal!(r.calls() == Seq::<RenderCall>::empty());
        }
        r
    }
}

/// Copies a material list element by element.
fn CopyMaterials(materials: &Vec<MaterialRef>) -> (r: Vec<MaterialRef>)
    ensures
        r@ == materials@,
{
    let n = materials.len();
    let mut r: Vec<MaterialRef> = Vec::new();
    let mut i: usize = 0;
    while i < n
        invariant
            n == materials@.len(),
            i <= n,
            r@ == materials@.take(i as int),
        decreases n - i,
    {
        r.push(materials[i]);
        proof {
            assert_seqs_equal!(r@ == materials@.take(i as int + 1));
        }
        i = i + 1;
    }
    proof {
        assert(materials@.take(n as int) == materials@);
    }
    r
}

impl SceneRenderer for RecordingRenderer {
    open spec fn calls(&self) -> Seq<RenderCall> {
        self.Calls@.map_values(|c: RecordedCall| c@)
    }

    open spec fn black_cube(&self) -> TextureRef {
        self.BlackCube
    }

    fn GetBlackTextureCube(&self) -> (r: TextureRef) {
        self.BlackCube
    }

    fn BeginScene(&mut self, camera: &EditorCamera, environment: Environment) {
        let ghost oldcalls = self.calls();
        let ghost envv = environment@;
        let cam = *camera;
        self.Calls.push(RecordedCall::BeginScene { Camera: cam, Env: environment });
        proof {
            assert_seqs_equal!(self.calls() == oldcalls.push(RenderCall::BeginScene { Camera: cam, Env: envv }));
        }
    }

    fn SubmitMesh(&mut self, mesh: MeshRef, transform: Mat4, materials: &Vec<MaterialRef>) {
        let ghost oldcalls = self.calls();
        let ghost meshv = mesh@;
        let mats = CopyMaterials(materials);
        self.Calls.push(RecordedCall::SubmitMesh { Mesh: mesh, Transform: transform, Materials: mats });
        proof {
            assert_seqs_equal!(self.calls() == oldcalls.push(RenderCall::SubmitMesh {
                Mesh: meshv, Transform: transform@, Materials: materials@ }));
        }
    }

    fn Flush(&mut self) {
        let ghost oldcalls = self.calls();
        self.Calls.push(RecordedCall::Flush);
        proof {
            assert_seqs_equal!(self.calls() == oldcalls.push(RenderCall::Flush));
        }
    }
}

} // verus!
