//! The persisted representation of components: each serializable component
//! yields an ordered list of named fields. The field names and their order
//! are part of the save-format compatibility contract; an outside
//! serializer (driven from unverified code) turns these records into the
//! structured save format.

use vstd::prelude::*;
use vstd::assert_seqs_equal;
use crate::component::{
    DirectionalLightComponent, MaterialRef, MeshComponent, PointLightComponent,
    TransformComponent,
};
use crate::math::Vec3;

verus! {

/// One field value of a persisted component record.
#[derive(Debug)]
pub enum SerialValue {
    /// A 3-component vector, persisted as `[x, y, z]`.
    Vector(Vec3),
    /// A single scalar.
    Scalar(i64),
    /// A text value, such as a source filepath.
    Text(String),
    /// A list of material identities.
    Materials(Vec<u64>),
}

/// The mathematical value of a field value.
pub enum SerialValueV {
    Vector(Vec3),
    Scalar(i64),
    Text(Seq<char>),
    Materials(Seq<u64>),
}

impl View for SerialValue {
    type V = SerialValueV;

    open spec fn view(&self) -> SerialValueV {
        match self {
            SerialValue::Vector(v) => SerialValueV::Vector(*v),
            SerialValue::Scalar(s) => SerialValueV::Scalar(*s),
            SerialValue::Text(t) => SerialValueV::Text(t@),
            SerialValue::Materials(m) => SerialValueV::Materials(m@),
        }
    }
}

/// One named field of a persisted component record.
#[derive(Debug)]
pub struct SerialField {
    pub Name: String,
    pub Value: SerialValue,
}

/// The mathematical value of a named field.
pub struct SerialFieldV {
    pub Name: Seq<char>,
    pub Value: SerialValueV,
}

impl View for SerialField {
    type V = SerialFieldV;

    open spec fn view(&self) -> SerialFieldV {
        SerialFieldV { Name: self.Name@, Value: self.Value@ }
    }
}

impl TransformComponent {
    /// The persisted record of a transform:
    /// `Position`, `Rotation`, `Scale`, in that order.
    pub fn SerializeFields(&self) -> (r: Vec<SerialField>)
        ensures
            r@.len() == 3,
            r@[0]@ == (SerialFieldV { Name: "Position"@, Value: SerialValueV::Vector(self.Position) }),
            r@[1]@ == (SerialFieldV { Name: "Rotation"@, Value: SerialValueV::Vector(self.Rotation) }),
            r@[2]@ == (SerialFieldV { Name: "Scale"@, Value: SerialValueV::Vector(self.Scale) }),
    {
        let mut r: Vec<SerialField> = Vec::new();
        r.push(SerialField { Name: "Position".to_owned(), Value: SerialValue::Vector(self.Position) });
        r.push(SerialField { Name: "Rotation".to_owned(), Value: SerialValue::Vector(self.Rotation) });
        r.push(SerialField { Name: "Scale".to_owned(), Value: SerialValue::Vector(self.Scale) });
        r
    }
}

impl MeshComponent {
    /// The persisted record of a mesh component: the mesh's source filepath
    /// under `Mesh`, then the material identities under `Materials`.
    pub fn SerializeFields(&self) -> (r: Vec<SerialField>)
        ensures
            r@.len() == 2,
            r@[0]@ == (SerialFieldV { Name: "Mesh"@, Value: SerialValueV::Text(self.Mesh.Filepath@) }),
            r@[1]@ == (SerialFieldV {
                Name: "Materials"@,
                Value: SerialValueV::Materials(self.Materials@.map_values(|m: MaterialRef| m.ID)),
            }),
    {
        let n = self.Materials.len();
        let mut ids: Vec<u64> = Vec::new();
        let mut i: usize = 0;
        proof {
            assert_seqs_equal!(ids@ == self.Materials@.take(0).map_values(|m: MaterialRef| m.ID));
        }
        while i < n
            invariant
                n == self.Materials@.len(),
                i <= n,
                ids@ == self.Materials@.take(i as int).map_values(|m: MaterialRef| m.ID),
            decreases n - i,
        {
            ids.push(self.Materials[i].ID);
            proof {
                assert_seqs_equal!(ids@ == self.Materials@.take(i as int + 1).map_values(|m: MaterialRef| m.ID));
            }
            i = i + 1;
        }
        proof {
            assert(self.Materials@.take(n as int) == self.Materials@);
        }

        let mut r: Vec<SerialField> = Vec::new();
        r.push(SerialField { Name: "Mesh".to_owned(), Value: SerialValue::Text(self.Mesh.Filepath.clone()) });
        r.push(SerialField { Name: "Materials".to_owned(), Value: SerialValue::Materials(ids) });
        r
    }
}

impl DirectionalLightComponent {
    /// The persisted record of a directional light: `Color`, `Intensity`.
    pub fn SerializeFields(&self) -> (r: Vec<SerialField>)
        ensures
            r@.len() == 2,
            r@[0]@ == (SerialFieldV { Name: "Color"@, Value: SerialValueV::Vector(self.Color) }),
            r@[1]@ == (SerialFieldV { Name: "Intensity"@, Value: SerialValueV::Scalar(self.Intensity) }),
    {
        let mut r: Vec<SerialField> = Vec::new();
        r.push(SerialField { Name: "Color".to_owned(), Value: SerialValue::Vector(self.Color) });
        r.push(SerialField { Name: "Intensity".to_owned(), Value: SerialValue::Scalar(self.Intensity) });
        r
    }
}

impl PointLightComponent {
    /// The persisted record of a point light: `Color`, `Intensity`.
    pub fn SerializeFields(&self) -> (r: Vec<SerialField>)
        ensures
            r@.len() == 2,
            r@[0]@ == (SerialFieldV { Name: "Color"@, Value: SerialValueV::Vector(self.Color) }),
            r@[1]@ == (SerialFieldV { Name: "Intensity"@, Value: SerialValueV::Scalar(self.Intensity) }),
    {
        let mut r: Vec<SerialField> = Vec::new();
        r.push(SerialField { Name: "Color".to_owned(), Value: SerialValue::Vector(self.Color) });
        r.push(SerialField { Name: "Intensity".to_owned(), Value: SerialValue::Scalar(self.Intensity) });
        r
    }
}

} // verus!
