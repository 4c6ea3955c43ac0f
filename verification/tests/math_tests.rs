use rusty_scene::component::{
    DirectionalLightComponent, MaterialRef, MeshComponent, MeshRef, PointLightComponent,
    TransformComponent,
};
use rusty_scene::fixed::{FxCos, FxSin, FX_ONE};
use rusty_scene::math::{MatTranspose, TransformPoint, Vec3};
use rusty_scene::serial::{SerialValue};

#[test]
fn sine_and_cosine_are_exact_at_quarter_turns() {
    assert_eq!(FxSin(0), 0);
    assert_eq!(FxSin(90 * FX_ONE), FX_ONE);
    assert_eq!(FxSin(180 * FX_ONE), 0);
    assert_eq!(FxSin(270 * FX_ONE), -FX_ONE);
    assert_eq!(FxSin(360 * FX_ONE), 0);

    assert_eq!(FxCos(0), FX_ONE);
    assert_eq!(FxCos(90 * FX_ONE), 0);
    assert_eq!(FxCos(180 * FX_ONE), -FX_ONE);
    assert_eq!(FxCos(270 * FX_ONE), 0);

    // Negative angles wind the other way.
    assert_eq!(FxSin(-90 * FX_ONE), -FX_ONE);
    assert_eq!(FxCos(-180 * FX_ONE), -FX_ONE);

    // The rational approximation is also exact at 30 degrees.
    assert_eq!(FxSin(30 * FX_ONE), FX_ONE / 2);
    assert_eq!(FxSin(150 * FX_ONE), FX_ONE / 2);
}

#[test]
fn rotation_90_about_y_maps_forward_to_x() {
    // Identity position and scale, rotation (0, 90, 0) degrees.
    let t = TransformComponent {
        Position: Vec3 { x: 0, y: 0, z: 0 },
        Rotation: Vec3 { x: 0, y: 90 * FX_ONE, z: 0 },
        Scale: Vec3 { x: FX_ONE, y: FX_ONE, z: FX_ONE },
    };
    let m = t.Transform();

    // The local forward axis +Z lands exactly on +X under the fixed
    // composition order scale, rotX, rotY, rotZ, translate.
    let forward = Vec3 { x: 0, y: 0, z: FX_ONE };
    let rotated = TransformPoint(&m, forward);
    assert_eq!(rotated, Vec3 { x: FX_ONE, y: 0, z: 0 });

    // And +X lands on -Z.
    let right = Vec3 { x: FX_ONE, y: 0, z: 0 };
    let rotated_right = TransformPoint(&m, right);
    assert_eq!(rotated_right, Vec3 { x: 0, y: 0, z: -FX_ONE });
}

#[test]
fn rotation_composes_x_before_y() {
    // With rotation (90, 90, 0) the forward axis must go through rotX first:
    // +Z -> (0, -1, 0) -> (0, -1, 0). Composing Y before X would instead
    // send it to (1, 0, 0), so this pins the composition order.
    let t = TransformComponent {
        Position: Vec3 { x: 0, y: 0, z: 0 },
        Rotation: Vec3 { x: 90 * FX_ONE, y: 90 * FX_ONE, z: 0 },
        Scale: Vec3 { x: FX_ONE, y: FX_ONE, z: FX_ONE },
    };
    let m = t.Transform();
    let rotated = TransformPoint(&m, Vec3 { x: 0, y: 0, z: FX_ONE });
    assert_eq!(rotated, Vec3 { x: 0, y: -FX_ONE, z: 0 });
}

#[test]
fn translation_occupies_fourth_row_and_transposes_to_fourth_column() {
    let t = TransformComponent {
        Position: Vec3 { x: 10 * FX_ONE, y: 20 * FX_ONE, z: 30 * FX_ONE },
        Rotation: Vec3 { x: 0, y: 0, z: 0 },
        Scale: Vec3 { x: FX_ONE, y: FX_ONE, z: FX_ONE },
    };
    let m = t.Transform();
    assert_eq!((m.m30, m.m31, m.m32), (10 * FX_ONE, 20 * FX_ONE, 30 * FX_ONE));

    let mt = MatTranspose(&m);
    assert_eq!((mt.m03, mt.m13, mt.m23), (10 * FX_ONE, 20 * FX_ONE, 30 * FX_ONE));
    assert_eq!(mt.m30, 0);
}

#[test]
fn scale_is_applied_before_translation() {
    let t = TransformComponent {
        Position: Vec3 { x: 100 * FX_ONE, y: 0, z: 0 },
        Rotation: Vec3 { x: 0, y: 0, z: 0 },
        Scale: Vec3 { x: 2 * FX_ONE, y: 2 * FX_ONE, z: 2 * FX_ONE },
    };
    let m = t.Transform();
    // A point at local (1, 0, 0) is scaled to 2 and then moved by 100.
    let p = TransformPoint(&m, Vec3 { x: FX_ONE, y: 0, z: 0 });
    assert_eq!(p, Vec3 { x: 102 * FX_ONE, y: 0, z: 0 });
}

#[test]
fn transform_record_field_names_and_order() {
    let t = TransformComponent {
        Position: Vec3 { x: FX_ONE, y: 0, z: 0 },
        Rotation: Vec3 { x: 0, y: 0, z: 0 },
        Scale: Vec3 { x: FX_ONE, y: FX_ONE, z: FX_ONE },
    };
    let fields = t.SerializeFields();
    assert_eq!(fields.len(), 3);
    assert_eq!(fields[0].Name, "Position");
    assert_eq!(fields[1].Name, "Rotation");
    assert_eq!(fields[2].Name, "Scale");
    match &fields[0].Value {
        SerialValue::Vector(v) => assert_eq!(*v, Vec3 { x: FX_ONE, y: 0, z: 0 }),
        other => panic!("expected a vector, got {:?}", other),
    }
}

#[test]
fn mesh_record_holds_filepath_and_material_identities() {
    let m = MeshComponent {
        Mesh: MeshRef { ID: 3, Filepath: String::from("assets/meshes/crate.fbx") },
        Materials: vec![MaterialRef { ID: 11 }, MaterialRef { ID: 12 }],
    };
    let fields = m.SerializeFields();
    assert_eq!(fields.len(), 2);
    assert_eq!(fields[0].Name, "Mesh");
    match &fields[0].Value {
        SerialValue::Text(path) => assert_eq!(path, "assets/meshes/crate.fbx"),
        other => panic!("expected text, got {:?}", other),
    }
    assert_eq!(fields[1].Name, "Materials");
    match &fields[1].Value {
        SerialValue::Materials(ids) => assert_eq!(ids, &vec![11, 12]),
        other => panic!("expected material identities, got {:?}", other),
    }
}

#[test]
fn light_records_hold_color_then_intensity() {
    let sun = DirectionalLightComponent {
        Color: Vec3 { x: FX_ONE, y: FX_ONE / 2, z: 0 },
        Intensity: 3 * FX_ONE,
    };
    let fields = sun.SerializeFields();
    assert_eq!(fields.len(), 2);
    assert_eq!(fields[0].Name, "Color");
    assert_eq!(fields[1].Name, "Intensity");
    match &fields[1].Value {
        SerialValue::Scalar(s) => assert_eq!(*s, 3 * FX_ONE),
        other => panic!("expected a scalar, got {:?}", other),
    }

    let bulb = PointLightComponent { Color: Vec3 { x: 0, y: 0, z: FX_ONE }, Intensity: FX_ONE };
    let fields = bulb.SerializeFields();
    assert_eq!(fields[0].Name, "Color");
    assert_eq!(fields[1].Name, "Intensity");
}
