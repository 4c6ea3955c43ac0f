//! The component records an entity can carry: a tag, a transform, a mesh and
//! three kinds of light. Shared assets (meshes, materials, textures) live in
//! an external cache; components hold non-owning handles only, modelled as
//! plain identities plus the data the scene logic reads from them.

use vstd::prelude::*;
use crate::fixed::{FX_FACTOR_MAX, FX_ONE, fx_abs};
use crate::math::{
    Mat4, Mat4V, MatIdentity, MatMul, MatRotationX, MatRotationY, MatRotationZ,
    MatScaling, MatTranslation, Vec3, identity_spec, mat_bounded, mat_mul_spec,
    rotation_x_spec, rotation_y_spec, rotation_z_spec, scaling_spec,
    translation_spec,
};
use crate::fixed::{cos_spec, sin_spec};

verus! {

/// Largest position magnitude a transform may hold (2^20 whole units), so
/// that model matrices stay within the fixed-point range.
pub const FX_POS_MAX: i64 = 1048576 * FX_ONE;

/// Largest scale magnitude a transform may hold (2^16 whole units).
pub const FX_SCALE_MAX: i64 = 65536 * FX_ONE;

/// Non-owning handle to a cube texture of the external asset cache.
#[derive(Clone, Copy, Debug, PartialEq, Eq, Structural)]
pub struct TextureRef {
    pub ID: u64,
}

/// Non-owning handle to a material of the external asset cache.
#[derive(Clone, Copy, Debug, PartialEq, Eq, Structural)]
pub struct MaterialRef {
    pub ID: u64,
}

/// Non-owning handle to a mesh of the external asset cache: its identity and
/// the source filepath it was loaded from.
#[derive(Clone, Debug)]
pub struct MeshRef {
    pub ID: u64,
    pub Filepath: String,
}

/// The mathematical value of a mesh handle.
pub struct MeshRefV {
    pub ID: u64,
    pub Filepath: Seq<char>,
}

impl View for MeshRef {
    type V = MeshRefV;

    open spec fn view(&self) -> MeshRefV {
        MeshRefV { ID: self.ID, Filepath: self.Filepath@ }
    }
}

/// The built-in unit cube mesh, identity 0 with no source file.
pub open spec fn unit_cube_spec() -> MeshRefV {
    MeshRefV { ID: 0, Filepath: Seq::<char>::empty() }
}

impl MeshRef {
    /// Handle to the built-in unit cube mesh.
    pub fn UnitCube() -> (r: MeshRef)
        ensures
            r@ == unit_cube_spec(),
    {
        MeshRef { ID: 0, Filepath: String::new() }
    }
}

/// Names an entity; every entity has exactly one.
#[derive(Clone, Debug)]
pub struct TagComponent {
    pub Tag: String,
}

impl Default for TagComponent {
    fn default() -> (r: TagComponent)
        ensures
            r.Tag@ == "Unnamed"@,
    {
        TagComponent { Tag: "Unnamed".to_owned() }
    }
}

/// Placement of an entity: position, rotation in fixed-point degrees per
/// axis, and scale; every entity has exactly one.
#[derive(Clone, Copy, Debug, PartialEq, Eq, Structural)]
pub struct TransformComponent {
    pub Position: Vec3,
    pub Rotation: Vec3,
    pub Scale: Vec3,
}

impl Default for TransformComponent {
    fn default() -> (r: TransformComponent)
        ensures
            r == (TransformComponent {
                Position: Vec3 { x: 0, y: 0, z: 0 },
                Rotation: Vec3 { x: 0, y: 0, z: 0 },
                Scale: Vec3 { x: FX_ONE, y: FX_ONE, z: FX_ONE },
            }),
    {
        TransformComponent {
            Position: Vec3::Create(0, 0, 0),
            Rotation: Vec3::Create(0, 0, 0),
            Scale: Vec3::Create(FX_ONE, FX_ONE, FX_ONE),
        }
    }
}

impl TransformComponent {
    /// Position and scale small enough for exact model-matrix arithmetic;
    /// rotation angles are unrestricted.
    pub open spec fn in_range(self) -> bool {
        &&& fx_abs(self.Position.x as int) <= FX_POS_MAX as int
        &&& fx_abs(self.Position.y as int) <= FX_POS_MAX as int
        &&& fx_abs(self.Position.z as int) <= FX_POS_MAX as int
        &&& fx_abs(self.Scale.x as int) <= FX_SCALE_MAX as int
        &&& fx_abs(self.Scale.y as int) <= FX_SCALE_MAX as int
        &&& fx_abs(self.Scale.z as int) <= FX_SCALE_MAX as int
    }

    /// The model matrix: scale first, then rotation about X, then Y, then Z,
    /// then translation last, in exactly this order (row-vector convention,
    /// so the matrix product reads S * Rx * Ry * Rz * T). The rotation
    /// factors take their sine and cosine from the stored angles in degrees.
    pub open spec fn model_matrix_spec(self) -> Mat4V {
        mat_mul_spec(
            scaling_spec(self.Scale.x as int, self.Scale.y as int, self.Scale.z as int),
            mat_mul_spec(
                rotation_x_spec(sin_spec(self.Rotation.x as int), cos_spec(self.Rotation.x as int)),
                mat_mul_spec(
                    rotation_y_spec(sin_spec(self.Rotation.y as int), cos_spec(self.Rotation.y as int)),
                    mat_mul_spec(
                        rotation_z_spec(sin_spec(self.Rotation.z as int), cos_spec(self.Rotation.z as int)),
                        mat_mul_spec(
                            translation_spec(
                                self.Position.x as int,
                                self.Position.y as int,
                                self.Position.z as int,
                            ),
                            identity_spec(),
                        ),
                    ),
                ),
            ),
        )
    }

    /// Builds the model matrix by chaining the five factors onto the
    /// identity, innermost first.
    #[verifier::rlimit(50)]
    pub fn Transform(&self) -> (r: Mat4)
        requires
            self.in_range(),
        ensures
            r@ == self.model_matrix_spec(),
            mat_bounded(r@, FX_FACTOR_MAX as int),
    {
        let translation = MatTranslation(self.Position.x, self.Position.y, self.Position.z);
        let rotationX = MatRotationX(self.Rotation.x);
        let rotationY = MatRotationY(self.Rotation.y);
        let rotationZ = MatRotationZ(self.Rotation.z);
        let scale = MatScaling(self.Scale.x, self.Scale.y, self.Scale.z);

        let mut transform = MatIdentity();
        transform = MatMul(&translation, &transform,
            Ghost(0x10_0000_0000int), Ghost(FX_ONE as int), Ghost(0x40_0000_0000int));
        transform = MatMul(&rotationZ, &transform,
            Ghost(FX_ONE as int), Ghost(0x40_0000_0000int), Ghost(0x100_0000_0000int));
        transform = MatMul(&rotationY, &transform,
            Ghost(FX_ONE as int), Ghost(0x100_0000_0000int), Ghost(0x400_0000_0000int));
        transform = MatMul(&rotationX, &transform,
            Ghost(FX_ONE as int), Ghost(0x400_0000_0000int), Ghost(0x1000_0000_0000int));
        transform = MatMul(&scale, &transform,
            Ghost(0x1_0000_0000int), Ghost(0x1000_0000_0000int), Ghost(FX_FACTOR_MAX as int));
        transform
    }
}

/// Geometry to draw: a mesh handle and the materials to draw it with.
#[derive(Clone, Debug)]
pub struct MeshComponent {
    pub Mesh: MeshRef,
    pub Materials: Vec<MaterialRef>,
}

/// The mathematical value of a mesh component.
pub struct MeshComponentV {
    pub Mesh: MeshRefV,
    pub Materials: Seq<MaterialRef>,
}

impl View for MeshComponent {
    type V = MeshComponentV;

    open spec fn view(&self) -> MeshComponentV {
        MeshComponentV { Mesh: self.Mesh@, Materials: self.Materials@ }
    }
}

impl Default for MeshComponent {
    fn default() -> (r: MeshComponent)
        ensures
            r@.Mesh == unit_cube_spec(),
            r@.Materials == Seq::<MaterialRef>::empty(),
    {
        MeshComponent { Mesh: MeshRef::UnitCube(), Materials: Vec::new() }
    }
}

/// Ambient environment lighting: a diffuse and a specular cube texture and
/// an intensity. At most one sky light is active per scene; extraction picks
/// the first one found.
#[derive(Clone, Copy, Debug)]
pub struct SkyLightComponent {
    pub EnvironmentMap: (TextureRef, TextureRef),
    pub Intensity: i64,
}

impl Default for SkyLightComponent {
    fn default() -> (r: SkyLightComponent)
        ensures
            r == (SkyLightComponent {
                EnvironmentMap: (TextureRef { ID: 0 }, TextureRef { ID: 0 }),
                Intensity: FX_ONE,
            }),
    {
        // Texture identity 0 is the renderer's black cube texture.
        SkyLightComponent {
            EnvironmentMap: (TextureRef { ID: 0 }, TextureRef { ID: 0 }),
            Intensity: FX_ONE,
        }
    }
}

/// A directional light: color and intensity; its direction is synthesized at
/// extraction time from the entity's transform.
#[derive(Clone, Copy, Debug, PartialEq, Eq, Structural)]
pub struct DirectionalLightComponent {
    pub Color: Vec3,
    pub Intensity: i64,
}

impl Default for DirectionalLightComponent {
    fn default() -> (r: DirectionalLightComponent)
        ensures
            r == (DirectionalLightComponent {
                Color: Vec3 { x: FX_ONE, y: FX_ONE, z: FX_ONE },
                Intensity: FX_ONE,
            }),
    {
        DirectionalLightComponent {
            Color: Vec3::Create(FX_ONE, FX_ONE, FX_ONE),
            Intensity: FX_ONE,
        }
    }
}

/// A point light: color and intensity; its position comes from the entity's
/// transform at extraction time.
#[derive(Clone, Copy, Debug, PartialEq, Eq, Structural)]
pub struct PointLightComponent {
    pub Color: Vec3,
    pub Intensity: i64,
}

impl Default for PointLightComponent {
    fn default() -> (r: PointLightComponent)
        ensures
            r == (PointLightComponent {
                Color: Vec3 { x: FX_ONE, y: FX_ONE, z: FX_ONE },
                Intensity: FX_ONE,
            }),
    {
        PointLightComponent {
            Color: Vec3::Create(FX_ONE, FX_ONE, FX_ONE),
            Intensity: FX_ONE,
        }
    }
}

} // verus!
