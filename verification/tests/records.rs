use sdf_scene::{
    input, vec3, BooleanOp, BooleanOpType, Camera, CameraStep, HeldKeys, Motion, Scalar,
    Transform, Vec3,
};

fn s(x: f32) -> Scalar {
    Scalar::from_bits(x.to_bits())
}

fn v(x: f32, y: f32, z: f32) -> Vec3 {
    vec3(s(x), s(y), s(z))
}

fn numbers(record: &[[Scalar; 4]; 4]) -> [[f32; 4]; 4] {
    let mut out = [[0.0f32; 4]; 4];
    for i in 0..4 {
        for j in 0..4 {
            out[i][j] = f32::from_bits(record[i][j].to_bits());
        }
    }
    out
}

fn pair(record: [Scalar; 2]) -> [f32; 2] {
    [f32::from_bits(record[0].to_bits()), f32::from_bits(record[1].to_bits())]
}

#[test]
fn a_new_operation_is_unattached() {
    let op = BooleanOp::new(BooleanOpType::Subtract, vec![3, 1]);
    assert_eq!(op.uid, 0);
    assert_eq!(op.obj_uids, vec![3, 1]);
    assert_eq!(op.operator, BooleanOpType::Subtract);
}

#[test]
fn operator_records() {
    assert_eq!(pair(BooleanOp::new(BooleanOpType::Union, vec![]).get()), [1.0, 0.0]);
    assert_eq!(pair(BooleanOp::new(BooleanOpType::Intersect, vec![]).get()), [2.0, 0.0]);
    assert_eq!(pair(BooleanOp::new(BooleanOpType::Subtract, vec![]).get()), [3.0, 0.0]);
    assert_eq!(pair(BooleanOp::new(BooleanOpType::SmoothUnion(s(8.0)), vec![]).get()), [4.0, 8.0]);
    assert_eq!(
        pair(BooleanOp::new(BooleanOpType::SmoothIntersect(s(0.25)), vec![]).get()),
        [5.0, 0.25]
    );
}

#[test]
fn transform_constructors_fill_in_identity_parts() {
    let t = v(1.0, 2.0, 3.0);
    let r = v(4.0, 5.0, 6.0);
    let k = v(7.0, 8.0, 9.0);
    let zeros = v(0.0, 0.0, 0.0);
    let ones = v(1.0, 1.0, 1.0);
    assert_eq!(Transform::new(t, r, k), Transform { translate: t, rotate: r, scale: k });
    assert_eq!(Transform::translation(t), Transform { translate: t, rotate: zeros, scale: ones });
    assert_eq!(Transform::rotation(r), Transform { translate: zeros, rotate: r, scale: ones });
    assert_eq!(Transform::scaler(k), Transform { translate: zeros, rotate: zeros, scale: k });
    assert_eq!(Transform::transrot(t, r), Transform { translate: t, rotate: r, scale: ones });
    assert_eq!(Transform::transscale(t, k), Transform { translate: t, rotate: zeros, scale: k });
    assert_eq!(Transform::rotscale(r, k), Transform { translate: zeros, rotate: r, scale: k });
    assert_eq!(Transform::none(), Transform { translate: zeros, rotate: zeros, scale: ones });
}

#[test]
fn transform_record() {
    let t = Transform::new(v(1.0, 2.0, 3.0), v(4.0, 5.0, 6.0), v(7.0, 8.0, 9.0));
    assert_eq!(
        numbers(&t.get_data()),
        [
            [1.0, 2.0, 3.0, 0.0],
            [4.0, 5.0, 6.0, 0.0],
            [7.0, 8.0, 9.0, 0.0],
            [0.0, 0.0, 0.0, 0.0],
        ]
    );
    assert_eq!(
        numbers(&Transform::none().get_data()),
        [
            [0.0, 0.0, 0.0, 0.0],
            [0.0, 0.0, 0.0, 0.0],
            [1.0, 1.0, 1.0, 0.0],
            [0.0, 0.0, 0.0, 0.0],
        ]
    );
}

#[test]
fn camera_matrix_has_the_basis_in_its_columns() {
    let c = Camera {
        origin: v(0.0, 1.0, 0.0),
        p: v(0.0, 1.0, 0.0),
        u: v(1.0, 2.0, 3.0),
        v: v(4.0, 5.0, 6.0),
        w: v(7.0, 8.0, 9.0),
        focal_length: s(1.0),
    };
    let m = c.as_data();
    let got: Vec<Vec<f32>> =
        m.iter().map(|row| row.iter().map(|x| f32::from_bits(x.to_bits())).collect()).collect();
    assert_eq!(got, vec![vec![1.0, 4.0, 7.0], vec![2.0, 5.0, 8.0], vec![3.0, 6.0, 9.0]]);
}

fn no_keys() -> HeldKeys {
    HeldKeys { a: false, d: false, w: false, s: false, q: false, e: false, left: false, right: false }
}

fn step(motion: Motion, positive: bool) -> CameraStep {
    CameraStep { motion, positive }
}

#[test]
fn no_keys_no_steps() {
    assert_eq!(input(&no_keys()), vec![]);
}

#[test]
fn each_key_has_its_step() {
    assert_eq!(input(&HeldKeys { a: true, ..no_keys() }), vec![step(Motion::MoveX, true)]);
    assert_eq!(input(&HeldKeys { d: true, ..no_keys() }), vec![step(Motion::MoveX, false)]);
    assert_eq!(input(&HeldKeys { w: true, ..no_keys() }), vec![step(Motion::MoveZ, true)]);
    assert_eq!(input(&HeldKeys { s: true, ..no_keys() }), vec![step(Motion::MoveZ, false)]);
    assert_eq!(input(&HeldKeys { q: true, ..no_keys() }), vec![step(Motion::MoveY, true)]);
    assert_eq!(input(&HeldKeys { e: true, ..no_keys() }), vec![step(Motion::MoveY, false)]);
    assert_eq!(input(&HeldKeys { left: true, ..no_keys() }), vec![step(Motion::RotateX, true)]);
    assert_eq!(input(&HeldKeys { right: true, ..no_keys() }), vec![step(Motion::RotateX, false)]);
}

#[test]
fn all_keys_step_in_a_fixed_order() {
    let all = HeldKeys { a: true, d: true, w: true, s: true, q: true, e: true, left: true, right: true };
    assert_eq!(
        input(&all),
        vec![
            step(Motion::MoveX, true),
            step(Motion::MoveX, false),
            step(Motion::MoveZ, true),
            step(Motion::MoveZ, false),
            step(Motion::MoveY, true),
            step(Motion::MoveY, false),
            step(Motion::RotateX, true),
            step(Motion::RotateX, false),
        ]
    );
    assert_eq!(
        input(&HeldKeys { s: true, left: true, d: true, ..no_keys() }),
        vec![step(Motion::MoveX, false), step(Motion::MoveZ, false), step(Motion::RotateX, true)]
    );
}
