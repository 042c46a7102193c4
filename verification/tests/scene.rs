use sdf_scene::{
    point3, rgb, vec3, BooleanOp, BooleanOpType, Camera, Primitive, Scalar, Scene, SceneError,
    Transform, Vec3, MAX_BOOL_OPS, MAX_LIGHTS, MAX_OBJECTS,
};

fn s(x: f32) -> Scalar {
    Scalar::from_bits(x.to_bits())
}

fn v(x: f32, y: f32, z: f32) -> Vec3 {
    vec3(s(x), s(y), s(z))
}

fn n(x: Scalar) -> f32 {
    f32::from_bits(x.to_bits())
}

fn sphere(radius: f32) -> Primitive {
    Primitive::Sphere(s(radius), rgb(s(0.2), s(1.0), s(0.2)))
}

fn cuboid() -> Primitive {
    Primitive::Cuboid(v(0.5, 0.5, 0.65), s(0.05), rgb(s(1.0), s(0.2), s(0.2)))
}

fn at(x: f32) -> Transform {
    Transform::translation(v(x, 0.0, 0.0))
}

fn full_scene() -> Scene {
    let mut scene = Scene::new();
    for i in 0..MAX_OBJECTS {
        assert_eq!(scene.add(sphere(i as f32), at(i as f32)), Ok(i));
    }
    scene
}

#[test]
fn a_new_scene_is_empty() {
    let scene = Scene::new();
    assert!(scene.objects().is_empty());
    assert!(scene.obj_boolops().is_empty());
    assert!(scene.obj_transforms().is_empty());
    assert!(scene.lights().is_empty());
    assert!(scene.bool_ops().is_empty());
}

#[test]
fn the_first_camera_is_what_looking_along_x_gives() {
    // The construction from an eye, a target, a roll and a focal length,
    // for the eye at the origin, the target at (1, 0, 0) and no roll.
    fn cross(a: [f32; 3], b: [f32; 3]) -> [f32; 3] {
        [a[1] * b[2] - a[2] * b[1], a[2] * b[0] - a[0] * b[2], a[0] * b[1] - a[1] * b[0]]
    }
    fn unit(a: [f32; 3]) -> [f32; 3] {
        let len = (a[0] * a[0] + a[1] * a[1] + a[2] * a[2]).sqrt();
        [a[0] / len, a[1] / len, a[2] / len]
    }
    fn lib(a: [f32; 3]) -> Vec3 {
        vec3(
            Scalar::from_bits(a[0].to_bits()),
            Scalar::from_bits(a[1].to_bits()),
            Scalar::from_bits(a[2].to_bits()),
        )
    }
    let roll = 0.0f32;
    let w = unit([1.0, 0.0, 0.0]);
    let p = [roll.sin(), roll.cos(), 0.0];
    let u = unit(cross(w, p));
    let up = unit(cross(u, w));
    let expected = Camera {
        origin: lib([0.0, 0.0, 0.0]),
        p: lib(p),
        u: lib(u),
        v: lib(up),
        w: lib(w),
        focal_length: s(2.5),
    };
    assert_eq!(*Scene::new().camera(), expected);
}

#[test]
fn objects_are_numbered_from_zero() {
    let mut scene = Scene::new();
    assert_eq!(scene.add(sphere(1.0), at(1.0)), Ok(0));
    assert_eq!(scene.add(cuboid(), at(2.0)), Ok(1));
    assert_eq!(scene.add(sphere(3.0), Transform::none()), Ok(2));
    assert_eq!(scene.objects(), &vec![sphere(1.0), cuboid(), sphere(3.0)]);
    assert_eq!(scene.obj_boolops(), &vec![0, 0, 0]);
    assert_eq!(scene.obj_transforms(), &vec![at(1.0), at(2.0), Transform::none()]);
}

#[test]
fn one_object_too_many_is_turned_down_and_changes_nothing() {
    let mut scene = full_scene();
    let before_objects = scene.objects().clone();
    let before_groups = scene.obj_boolops().clone();
    let before_transforms = scene.obj_transforms().clone();
    let before_block = scene.get_objects();
    assert_eq!(scene.add(cuboid(), at(99.0)), Err(SceneError::CapacityExceeded));
    assert_eq!(scene.objects().len(), MAX_OBJECTS);
    assert_eq!(scene.objects(), &before_objects);
    assert_eq!(scene.obj_boolops(), &before_groups);
    assert_eq!(scene.obj_transforms(), &before_transforms);
    assert_eq!(scene.get_objects(), before_block);
    for (i, p) in scene.objects().iter().enumerate() {
        assert_eq!(*p, sphere(i as f32));
    }
}

#[test]
fn lights_are_bounded() {
    let mut scene = Scene::new();
    for i in 0..MAX_LIGHTS {
        assert_eq!(scene.add_light(point3(s(i as f32), s(5.0), s(-6.0))), Ok(()));
    }
    assert_eq!(
        scene.add_light(point3(s(9.0), s(9.0), s(9.0))),
        Err(SceneError::CapacityExceeded)
    );
    assert_eq!(scene.lights().len(), MAX_LIGHTS);
    let block = scene.get_lights();
    for i in 0..MAX_LIGHTS {
        assert_eq!([n(block[i][0]), n(block[i][1]), n(block[i][2]), n(block[i][3])],
            [i as f32, 5.0, -6.0, 1.0]);
    }
}

#[test]
fn the_light_block_is_padded_with_zeros() {
    let mut scene = Scene::new();
    scene.add_light(point3(s(6.0), s(5.0), s(-6.0))).unwrap();
    let block = scene.get_lights();
    assert_eq!(block.len(), MAX_LIGHTS);
    assert_eq!([n(block[0][0]), n(block[0][1]), n(block[0][2]), n(block[0][3])], [6.0, 5.0, -6.0, 1.0]);
    for k in 1..MAX_LIGHTS {
        assert_eq!(block[k], [Scalar::zero(); 4]);
    }
}

#[test]
fn a_union_of_a_sphere_and_a_cuboid() {
    let mut scene = Scene::new();
    let sphere_idx = scene.add(sphere(0.75), at(0.0)).unwrap();
    let cuboid_idx = scene.add(cuboid(), at(1.0)).unwrap();
    let uid = scene
        .add_bool_op(BooleanOp::new(BooleanOpType::Union, vec![sphere_idx, cuboid_idx]))
        .unwrap();
    assert_eq!(uid, 1);
    assert_eq!(scene.bool_ops()[0].uid, 1);
    assert_eq!(scene.obj_boolops()[sphere_idx], 1);
    assert_eq!(scene.obj_boolops()[cuboid_idx], 1);
    let block = scene.get_objects();
    assert_eq!(block[0], sphere(0.75).as_data(s(1.0)));
    assert_eq!(block[1], cuboid().as_data(s(1.0)));
    assert_eq!(n(block[0][0][3]), 1.0);
    assert_eq!(n(block[1][0][3]), 1.0);
    assert_eq!(n(block[0][0][1]), 0.75);
    for k in 2..MAX_OBJECTS {
        assert_eq!(n(block[k][0][0]), 0.0);
    }
}

#[test]
fn grouped_objects_follow_the_ungrouped_ones() {
    let mut scene = Scene::new();
    let a = scene.add(sphere(1.0), at(1.0)).unwrap();
    let b = scene.add(sphere(2.0), at(2.0)).unwrap();
    let c = scene.add(sphere(3.0), at(3.0)).unwrap();
    let d = scene.add(sphere(4.0), at(4.0)).unwrap();
    let e = scene.add(sphere(5.0), at(5.0)).unwrap();
    assert_eq!(scene.add_bool_op(BooleanOp::new(BooleanOpType::Subtract, vec![d, a])), Ok(1));
    assert_eq!(
        scene.add_bool_op(BooleanOp::new(BooleanOpType::SmoothUnion(s(8.0)), vec![b])),
        Ok(2)
    );
    assert_eq!(scene.obj_boolops(), &vec![1, 2, 0, 1, 0]);
    // Indices stay as they were.
    assert_eq!(scene.objects()[a], sphere(1.0));
    assert_eq!(scene.objects()[e], sphere(5.0));
    let block = scene.get_objects();
    let radii: Vec<f32> = (0..5).map(|k| n(block[k][0][1])).collect();
    let groups: Vec<f32> = (0..5).map(|k| n(block[k][0][3])).collect();
    assert_eq!(radii, vec![3.0, 5.0, 1.0, 4.0, 2.0]);
    assert_eq!(groups, vec![0.0, 0.0, 1.0, 1.0, 2.0]);
    assert_eq!(scene.objects()[c], sphere(3.0));
    // The transforms go with their objects.
    let moves = scene.get_transformations();
    let xs: Vec<f32> = (0..5).map(|k| n(moves[k][0][0])).collect();
    assert_eq!(xs, vec![3.0, 5.0, 1.0, 4.0, 2.0]);
    for k in 5..MAX_OBJECTS {
        assert_eq!(moves[k], [[Scalar::zero(); 4]; 4]);
        assert_eq!(block[k], [[Scalar::zero(); 4]; 4]);
    }
    for k in 0..5 {
        assert_eq!(n(moves[k][2][0]), 1.0);
    }
    // Writing the blocks out changes nothing.
    assert_eq!(scene.get_objects(), block);
    assert_eq!(scene.obj_boolops(), &vec![1, 2, 0, 1, 0]);
}

#[test]
fn the_object_block_always_has_every_slot() {
    assert_eq!(Scene::new().get_objects().len(), MAX_OBJECTS);
    assert_eq!(Scene::new().get_objects(), [[[Scalar::zero(); 4]; 4]; MAX_OBJECTS]);
    let full = full_scene().get_objects();
    assert_eq!(full.len(), MAX_OBJECTS);
    for k in 0..MAX_OBJECTS {
        assert_eq!(n(full[k][0][0]), 1.0);
        assert_eq!(n(full[k][0][1]), k as f32);
    }
}

#[test]
fn an_operation_over_a_missing_object_is_turned_down() {
    let mut scene = Scene::new();
    scene.add(sphere(1.0), at(1.0)).unwrap();
    assert_eq!(
        scene.add_bool_op(BooleanOp::new(BooleanOpType::Union, vec![0, 1])),
        Err(SceneError::DanglingReference)
    );
    assert_eq!(
        scene.add_bool_op(BooleanOp::new(BooleanOpType::Union, vec![7, 7])),
        Err(SceneError::DanglingReference)
    );
    assert!(scene.bool_ops().is_empty());
    assert_eq!(scene.obj_boolops(), &vec![0]);
}

#[test]
fn an_operation_that_names_an_object_twice_is_turned_down() {
    let mut scene = Scene::new();
    scene.add(sphere(1.0), at(1.0)).unwrap();
    scene.add(sphere(2.0), at(2.0)).unwrap();
    assert_eq!(
        scene.add_bool_op(BooleanOp::new(BooleanOpType::Intersect, vec![1, 0, 1])),
        Err(SceneError::MemberConflict)
    );
    assert!(scene.bool_ops().is_empty());
    assert_eq!(scene.obj_boolops(), &vec![0, 0]);
}

#[test]
fn an_operation_over_a_grouped_object_is_turned_down() {
    let mut scene = Scene::new();
    scene.add(sphere(1.0), at(1.0)).unwrap();
    scene.add(sphere(2.0), at(2.0)).unwrap();
    scene.add(sphere(3.0), at(3.0)).unwrap();
    assert_eq!(scene.add_bool_op(BooleanOp::new(BooleanOpType::Union, vec![0, 1])), Ok(1));
    assert_eq!(
        scene.add_bool_op(BooleanOp::new(BooleanOpType::Union, vec![2, 1])),
        Err(SceneError::MemberConflict)
    );
    assert_eq!(scene.bool_ops().len(), 1);
    assert_eq!(scene.obj_boolops(), &vec![1, 1, 0]);
    assert_eq!(scene.add_bool_op(BooleanOp::new(BooleanOpType::Union, vec![2])), Ok(2));
    assert_eq!(scene.obj_boolops(), &vec![1, 1, 2]);
}

#[test]
fn operations_are_bounded_and_numbered_from_one() {
    let mut scene = full_scene();
    for k in 0..MAX_BOOL_OPS {
        assert_eq!(
            scene.add_bool_op(BooleanOp::new(BooleanOpType::Intersect, vec![k])),
            Ok(k + 1)
        );
    }
    // A full list is reported before anything else.
    assert_eq!(
        scene.add_bool_op(BooleanOp::new(BooleanOpType::Union, vec![99])),
        Err(SceneError::CapacityExceeded)
    );
    assert_eq!(
        scene.add_bool_op(BooleanOp::new(BooleanOpType::Union, vec![])),
        Err(SceneError::CapacityExceeded)
    );
    assert_eq!(scene.bool_ops().len(), MAX_BOOL_OPS);
    for (k, op) in scene.bool_ops().iter().enumerate() {
        assert_eq!(op.uid, k + 1);
        assert_eq!(op.obj_uids, vec![k]);
    }
    let block = scene.get_objects();
    for k in 0..MAX_OBJECTS {
        assert_eq!(n(block[k][0][3]), (k + 1) as f32);
    }
}

#[test]
fn an_operation_without_members_is_attached() {
    let mut scene = Scene::new();
    assert_eq!(scene.add_bool_op(BooleanOp::new(BooleanOpType::Subtract, vec![])), Ok(1));
    assert_eq!(scene.bool_ops().len(), 1);
}

#[test]
fn the_operation_block() {
    let mut scene = Scene::new();
    scene.add(sphere(1.0), at(1.0)).unwrap();
    scene.add(sphere(2.0), at(2.0)).unwrap();
    scene.add_bool_op(BooleanOp::new(BooleanOpType::SmoothUnion(s(8.0)), vec![0])).unwrap();
    scene.add_bool_op(BooleanOp::new(BooleanOpType::Subtract, vec![1])).unwrap();
    let block = scene.get_bool_ops();
    assert_eq!(block.len(), MAX_BOOL_OPS);
    assert_eq!([n(block[0][0]), n(block[0][1])], [4.0, 8.0]);
    assert_eq!([n(block[1][0]), n(block[1][1])], [3.0, 0.0]);
    for k in 2..MAX_BOOL_OPS {
        assert_eq!(block[k], [Scalar::zero(); 2]);
    }
}

#[test]
fn the_camera_can_be_replaced_and_changed_in_place() {
    let mut scene = Scene::new();
    let camera = Camera {
        origin: v(0.0, 1.0, 0.0),
        p: v(0.0, 1.0, 0.0),
        u: v(-1.0, 0.0, 0.0),
        v: v(0.0, 1.0, 0.0),
        w: v(0.0, 0.0, 1.0),
        focal_length: s(1.0),
    };
    scene.add(sphere(1.0), at(1.0)).unwrap();
    scene.set_camera(camera);
    assert_eq!(*scene.camera(), camera);
    scene.camera_mut().origin = v(4.0, 5.0, 6.0);
    assert_eq!(scene.camera().origin, v(4.0, 5.0, 6.0));
    assert_eq!(scene.camera().w, v(0.0, 0.0, 1.0));
    assert_eq!(scene.objects().len(), 1);
}
