use vstd::prelude::*;
use crate::boolean_op::BooleanOp;
use crate::camera::Camera;
use crate::constants::{MAX_BOOL_OPS, MAX_LIGHTS, MAX_OBJECTS};
use crate::order::{
    emission_order, lemma_group_contiguous, lemma_object_at, lemma_output_sorted, object_at,
};
use crate::primitive::{zero_row, Primitive, Record};
use crate::scalar::{lemma_from_count_injective, Scalar};
use crate::transform::Transform;
use crate::vec3::{Point3, Vec3};

verus! {

/// Why a scene turned an addition down. The scene is then as it was.
#[derive(Clone, Copy, Debug, PartialEq, Eq, Structural)]
pub enum SceneError {
    /// The list that the call adds to is full.
    CapacityExceeded,
    /// A boolean operation names an object that the scene does not hold.
    DanglingReference,
    /// A boolean operation names an object twice, or an object that already
    /// belongs to a group.
    MemberConflict,
}

/// The objects, lights and boolean operations of a frame, and its camera.
///
/// An object is known by its index, which is the number of objects added
/// before it and never changes. A boolean operation is known by its `uid`,
/// which is one more than the number of operations attached before it.
pub struct Scene {
    objects: Vec<Primitive>,
    obj_boolops: Vec<usize>,
    obj_transforms: Vec<Transform>,
    lights: Vec<Point3>,
    bool_ops: Vec<BooleanOp>,
    camera: Camera,
}

/// What a scene holds.
pub struct SceneView {
    /// The objects by index.
    pub objects: Seq<Primitive>,
    /// For each object the `uid` of the operation that lists it, or 0.
    pub groups: Seq<usize>,
    /// For each object its transform.
    pub transforms: Seq<Transform>,
    pub lights: Seq<Point3>,
    /// The operations in the order in which they were attached.
    pub ops: Seq<BooleanOp>,
    pub camera: Camera,
}

/// The record of four rows of zeros, which stands for no object.
pub open spec fn zero_record() -> Record {
    [zero_row(), zero_row(), zero_row(), zero_row()]
}

/// The camera of a new scene: at the origin, looking along `x` with `y` up,
/// with a focal length of 2.5.
pub open spec fn initial_camera() -> Camera {
    let o = Scalar::zero();
    let l = Scalar::one();
    Camera {
        origin: Vec3 { x: o, y: o, z: o },
        p: Vec3 { x: o, y: l, z: o },
        u: Vec3 { x: o, y: o, z: l },
        v: Vec3 { x: o, y: l, z: o },
        w: Vec3 { x: l, y: o, z: o },
        focal_length: Scalar { bits: 0x4020_0000 },
    }
}

impl SceneView {
    /// What holds of every scene: the lists keep within their bounds, every
    /// object has a group and a transform, the operations are numbered from
    /// 1 in the order of attachment, every member of an operation is an
    /// object of the scene that carries the operation's `uid` as its group,
    /// and every group other than 0 is the `uid` of an operation that lists
    /// the object.
    pub open spec fn wf(self) -> bool {
        &&& self.objects.len() <= MAX_OBJECTS
        &&& self.groups.len() == self.objects.len()
        &&& self.transforms.len() == self.objects.len()
        &&& self.lights.len() <= MAX_LIGHTS
        &&& self.ops.len() <= MAX_BOOL_OPS
        &&& forall|k: int| 0 <= k < self.ops.len() ==> (#[trigger] self.ops[k]).uid == k + 1
        &&& forall|k: int, m: int|
            0 <= k < self.ops.len() && 0 <= m < self.ops[k].obj_uids@.len() ==> {
                &&& (#[trigger] self.ops[k].obj_uids@[m]) < self.objects.len()
                &&& self.groups[self.ops[k].obj_uids@[m] as int] == k + 1
            }
        &&& forall|i: int|
            0 <= i < self.objects.len() ==> {
                ||| #[trigger] self.groups[i] == 0
                ||| {
                    &&& 1 <= self.groups[i] <= self.ops.len()
                    &&& self.ops[self.groups[i] - 1].obj_uids@.contains(i as usize)
                }
            }
    }

    /// The record at place `k` of the object block: that of the object
    /// written there, with its group in the last place of row 0; past the
    /// last object, the record of zeros.
    pub open spec fn object_record(self, k: int) -> Record {
        if 0 <= k < self.objects.len() {
            let i = object_at(self.groups, k);
            self.objects[i].spec_as_data(Scalar::spec_from_count(self.groups[i] as nat))
        } else {
            zero_record()
        }
    }

    /// The record at place `k` of the transform block: the transform of the
    /// object whose record lies at place `k` of the object block; past the
    /// last object, the record of zeros.
    pub open spec fn transform_record(self, k: int) -> Record {
        if 0 <= k < self.objects.len() {
            self.transforms[object_at(self.groups, k)].spec_get_data()
        } else {
            zero_record()
        }
    }

    /// The record at place `k` of the light block: the position of light
    /// `k`, then a one; past the last light, zeros.
    pub open spec fn light_record(self, k: int) -> [Scalar; 4] {
        if 0 <= k < self.lights.len() {
            [self.lights[k].x, self.lights[k].y, self.lights[k].z, Scalar::one()]
        } else {
            zero_row()
        }
    }

    /// The record at place `k` of the operation block: that of operation
    /// `k`; past the last operation, zeros.
    pub open spec fn op_record(self, k: int) -> [Scalar; 2] {
        if 0 <= k < self.ops.len() {
            self.ops[k].spec_get()
        } else {
            [Scalar::zero(), Scalar::zero()]
        }
    }

    /// What attaching an operation over `members` answers: the new `uid`,
    /// or the reason why the operation is turned down. A full list is
    /// reported first, then a member that is no object, then a member that
    /// is named twice or already grouped.
    pub open spec fn attach_result(self, members: Seq<usize>) -> Result<usize, SceneError> {
        if self.ops.len() >= MAX_BOOL_OPS {
            Err(SceneError::CapacityExceeded)
        } else if exists|m: int| 0 <= m < members.len() && members[m] >= self.objects.len() {
            Err(SceneError::DanglingReference)
        } else if !members.no_duplicates() || exists|m: int|
            0 <= m < members.len() && self.groups[members[m] as int] != 0 {
            Err(SceneError::MemberConflict)
        } else {
            Ok((self.ops.len() + 1) as usize)
        }
    }

    /// The scene after `op` is attached: the operation stands last with the
    /// next `uid`, and that `uid` is the group of each of its members.
    pub open spec fn attach(self, op: BooleanOp) -> SceneView {
        let uid = (self.ops.len() + 1) as usize;
        SceneView {
            groups: Seq::new(
                self.groups.len(),
                |i: int|
                    if op.obj_uids@.contains(i as usize) {
                        uid
                    } else {
                        self.groups[i]
                    },
            ),
            ops: self.ops.push(BooleanOp { uid, ..op }),
            ..self
        }
    }
}

fn empty_record() -> (r: Record)
    ensures
        r == zero_record(),
{
    let o = Scalar::zero();
    [[o, o, o, o], [o, o, o, o], [o, o, o, o], [o, o, o, o]]
}

impl View for Scene {
    type V = SceneView;

    closed spec fn view(&self) -> SceneView {
        SceneView {
            objects: self.objects@,
            groups: self.obj_boolops@,
            transforms: self.obj_transforms@,
            lights: self.lights@,
            ops: self.bool_ops@,
            camera: self.camera,
        }
    }
}

impl Scene {
    /// A scene without objects, lights or operations.
    pub fn new() -> (r: Scene)
        ensures
            r@.wf(),
            r@.objects.len() == 0,
            r@.lights.len() == 0,
            r@.ops.len() == 0,
            r@.camera == initial_camera(),
    {
        let o = Scalar::zero();
        let l = Scalar::one();
        Scene {
            objects: Vec::new(),
            obj_boolops: Vec::new(),
            obj_transforms: Vec::new(),
            lights: Vec::new(),
            bool_ops: Vec::new(),
            camera: Camera {
                origin: Vec3::new(o, o, o),
                p: Vec3::new(o, l, o),
                u: Vec3::new(o, o, l),
                v: Vec3::new(o, l, o),
                w: Vec3::new(l, o, o),
                focal_length: Scalar::from_bits(0x4020_0000),
            },
        }
    }

    /// Adds an object outside any group and answers its index.
    pub fn add(&mut self, object: Primitive, transform: Transform) -> (r: Result<
        usize,
        SceneError,
    >)
        requires
            old(self)@.wf(),
        ensures
            final(self)@.wf(),
            old(self)@.objects.len() < MAX_OBJECTS ==> {
                &&& r == Ok::<usize, SceneError>(old(self)@.objects.len() as usize)
                &&& final(self)@ == (SceneView {
                    objects: old(self)@.objects.push(object),
                    groups: old(self)@.groups.push(0),
                    transforms: old(self)@.transforms.push(transform),
                    ..old(self)@
                })
            },
            old(self)@.objects.len() >= MAX_OBJECTS ==> {
                &&& r == Err::<usize, SceneError>(SceneError::CapacityExceeded)
                &&& final(self)@ == old(self)@
            },
    {
        let index = self.objects.len();
        if index >= MAX_OBJECTS {
            return Err(SceneError::CapacityExceeded);
        }
        self.objects.push(object);
        self.obj_boolops.push(0);
        self.obj_transforms.push(transform);
        Ok(index)
    }

    /// Adds a light.
    pub fn add_light(&mut self, point: Point3) -> (r: Result<(), SceneError>)
        requires
            old(self)@.wf(),
        ensures
            final(self)@.wf(),
            old(self)@.lights.len() < MAX_LIGHTS ==> {
                &&& r is Ok
                &&& final(self)@ == (SceneView {
                    lights: old(self)@.lights.push(point),
                    ..old(self)@
                })
            },
            old(self)@.lights.len() >= MAX_LIGHTS ==> {
                &&& r == Err::<(), SceneError>(SceneError::CapacityExceeded)
                &&& final(self)@ == old(self)@
            },
    {
        if self.lights.len() >= MAX_LIGHTS {
            return Err(SceneError::CapacityExceeded);
        }
        self.lights.push(point);
        Ok(())
    }

    /// Replaces the camera.
    pub fn set_camera(&mut self, camera: Camera)
        ensures
            final(self)@ == (SceneView { camera, ..old(self)@ }),
    {
        self.camera = camera;
    }

    /// The objects by index.
    pub fn objects(&self) -> (r: &Vec<Primitive>)
        ensures
            r@ == self@.objects,
    {
        &self.objects
    }

    /// For each object the `uid` of the operation that lists it, or 0.
    pub fn obj_boolops(&self) -> (r: &Vec<usize>)
        ensures
            r@ == self@.groups,
    {
        &self.obj_boolops
    }

    /// For each object its transform.
    pub fn obj_transforms(&self) -> (r: &Vec<Transform>)
        ensures
            r@ == self@.transforms,
    {
        &self.obj_transforms
    }

    pub fn lights(&self) -> (r: &Vec<Point3>)
        ensures
            r@ == self@.lights,
    {
        &self.lights
    }

    /// The operations in the order in which they were attached.
    pub fn bool_ops(&self) -> (r: &Vec<BooleanOp>)
        ensures
            r@ == self@.ops,
    {
        &self.bool_ops
    }

    pub fn camera(&self) -> (r: &Camera)
        ensures
            *r == self@.camera,
    {
        &self.camera
    }

    /// The camera, to be moved or turned in place.
    pub fn camera_mut(&mut self) -> (r: &mut Camera)
        ensures
            *r == old(self)@.camera,
            final(self)@ == (SceneView { camera: *final(r), ..old(self)@ }),
    {
        &mut self.camera
    }

    /// Attaches `bool_op`: gives it the next `uid`, answers that `uid`, and
    /// makes it the group of every member. An operation that the scene cannot
    /// hold, or whose members are not objects of the scene, each named once
    /// and in no group yet, is turned down and changes nothing.
    #[verifier::loop_isolation(false)]
    pub fn add_bool_op(&mut self, bool_op: BooleanOp) -> (r: Result<usize, SceneError>)
        requires
            old(self)@.wf(),
        ensures
            final(self)@.wf(),
            r == old(self)@.attach_result(bool_op.obj_uids@),
            r is Ok ==> final(self)@ == old(self)@.attach(bool_op),
            r is Err ==> final(self)@ == old(self)@,
    {
        let n_ops = self.bool_ops.len();
        if n_ops >= MAX_BOOL_OPS {
            return Err(SceneError::CapacityExceeded);
        }
        let n = self.objects.len();
        let m = bool_op.obj_uids.len();
        let ghost members = bool_op.obj_uids@;
        let ghost groups = self.obj_boolops@;
        let mut k: usize = 0;
        while k < m
            invariant
                k <= m,
                m == members.len(),
                members == bool_op.obj_uids@,
                forall|j: int| 0 <= j < k ==> members[j] < n,
            decreases m - k,
        {
            if bool_op.obj_uids[k] >= n {
                return Err(SceneError::DanglingReference);
            }
            k = k + 1;
        }
        let uid = n_ops + 1;
        let mut tags: Vec<usize> = Vec::new();
        let mut i: usize = 0;
        while i < n
            invariant
                i <= n,
                n == groups.len(),
                groups == self.obj_boolops@,
                tags@ == groups.take(i as int),
            decreases n - i,
        {
            tags.push(self.obj_boolops[i]);
            i = i + 1;
        }
        let mut k: usize = 0;
        while k < m
            invariant
                k <= m,
                m == members.len(),
                members == bool_op.obj_uids@,
                n == groups.len(),
                tags.len() == n,
                uid >= 1,
                forall|j: int| 0 <= j < m ==> members[j] < n,
                forall|j: int| 0 <= j < k ==> groups[members[j] as int] == 0,
                members.take(k as int).no_duplicates(),
                forall|i: int|
                    0 <= i < n ==> tags[i] == if members.take(k as int).contains(i as usize) {
                        uid
                    } else {
                        groups[i]
                    },
            decreases m - k,
        {
            let idx = bool_op.obj_uids[k];
            if tags[idx] != 0 {
                proof {
                    if members.take(k as int).contains(idx) {
                        let j = choose|j: int|
                            0 <= j < k && members.take(k as int)[j] == idx;
                        assert(members[j] == members[k as int]);
                        assert(!members.no_duplicates());
                    } else {
                        assert(groups[members[k as int] as int] != 0);
                    }
                }
                return Err(SceneError::MemberConflict);
            }
            proof {
                let before = members.take(k as int);
                let after = members.take(k + 1);
                assert(after == before.push(idx));
                assert(!before.contains(idx));
                assert(after.no_duplicates()) by {
                    assert forall|a: int, b: int|
                        0 <= a < after.len() && 0 <= b < after.len() && a != b implies after[a]
                        != after[b] by {
                        if a < k && b < k {
                            assert(before[a] != before[b]);
                        } else if a < k {
                            assert(before[a] == after[a]);
                        } else {
                            assert(before[b] == after[b]);
                        }
                    }
                }
                assert forall|x: usize| #[trigger] after.contains(x) <==> (before.contains(x) || x
                    == idx) by {
                    if before.contains(x) {
                        let j = choose|j: int| 0 <= j < before.len() && before[j] == x;
                        assert(after[j] == x);
                    }
                    if x == idx {
                        assert(after[k as int] == idx);
                    }
                }
            }
            tags.set(idx, uid);
            k = k + 1;
        }
        proof {
            assert(members.take(m as int) == members);
        }
        let ghost before = self@;
        self.obj_boolops = tags;
        self.bool_ops.push(BooleanOp { operator: bool_op.operator, obj_uids: bool_op.obj_uids, uid });
        proof {
            let after = self@;
            assert(after.groups == before.attach(bool_op).groups);
            assert(after == before.attach(bool_op));
            assert forall|a: int, b: int|
                0 <= a < after.ops.len() && 0 <= b < after.ops[a].obj_uids@.len() implies (
            #[trigger] after.ops[a].obj_uids@[b]) < after.objects.len() && after.groups[after.ops[a].obj_uids@[b] as int]
                == a + 1 by {
                if a < n_ops {
                    assert(after.ops[a] == before.ops[a]);
                    let x = before.ops[a].obj_uids@[b];
                    assert(before.groups[x as int] == a + 1);
                    if members.contains(x) {
                        let j = choose|j: int| 0 <= j < members.len() && members[j] == x;
                        assert(groups[members[j] as int] == 0);
                    }
                } else {
                    assert(members.contains(members[b]));
                }
            }
            assert forall|i: int| 0 <= i < after.objects.len() implies (#[trigger] after.groups[i]
                == 0 || (1 <= after.groups[i] <= after.ops.len() && after.ops[after.groups[i]
                - 1].obj_uids@.contains(i as usize))) by {
                if members.contains(i as usize) {
                    assert(after.ops[uid - 1].obj_uids@ == members);
                } else if before.groups[i] != 0 {
                    assert(after.ops[before.groups[i] - 1] == before.ops[before.groups[i] - 1]);
                }
            }
        }
        Ok(uid)
    }

    /// The object block: the records of the objects, sorted by group and
    /// within a group by index, then records of zeros up to `MAX_OBJECTS`.
    #[verifier::loop_isolation(false)]
    pub fn get_objects(&self) -> (r: [Record; MAX_OBJECTS])
        requires
            self@.wf(),
        ensures
            forall|k: int| 0 <= k < MAX_OBJECTS ==> r[k] == self@.object_record(k),
            forall|k: int| self@.objects.len() <= k < MAX_OBJECTS ==> r[k][0][0] == Scalar::zero(),
    {
        let mut arr = [empty_record(); MAX_OBJECTS];
        let order = emission_order(&self.obj_boolops);
        let n = self.objects.len();
        let mut k: usize = 0;
        while k < n
            invariant
                k <= n,
                forall|j: int| 0 <= j < k ==> arr[j] == self@.object_record(j),
                forall|j: int| k <= j < MAX_OBJECTS ==> arr[j] == zero_record(),
            decreases n - k,
        {
            let i = order[k];
            proof {
                lemma_object_at(self@.groups, k as int);
            }
            let group = self.obj_boolops[i];
            arr[k] = self.objects[i].as_data(Scalar::from_count(group));
            k = k + 1;
        }
        arr
    }

    /// The light block: a record for each light in the order of addition,
    /// then records of zeros up to `MAX_LIGHTS`.
    #[verifier::loop_isolation(false)]
    pub fn get_lights(&self) -> (r: [[Scalar; 4]; MAX_LIGHTS])
        requires
            self@.wf(),
        ensures
            forall|k: int| 0 <= k < MAX_LIGHTS ==> r[k] == self@.light_record(k),
    {
        let o = Scalar::zero();
        let mut arr = [[o, o, o, o]; MAX_LIGHTS];
        let n = self.lights.len();
        let mut k: usize = 0;
        while k < n
            invariant
                k <= n,
                forall|j: int| 0 <= j < k ==> arr[j] == self@.light_record(j),
                forall|j: int| k <= j < MAX_LIGHTS ==> arr[j] == zero_row(),
            decreases n - k,
        {
            let light = self.lights[k];
            arr[k] = [light.x, light.y, light.z, Scalar::one()];
            k = k + 1;
        }
        arr
    }

    /// The operation block: a record for each operation in the order of
    /// attachment, then records of zeros up to `MAX_BOOL_OPS`.
    #[verifier::loop_isolation(false)]
    pub fn get_bool_ops(&self) -> (r: [[Scalar; 2]; MAX_BOOL_OPS])
        requires
            self@.wf(),
        ensures
            forall|k: int| 0 <= k < MAX_BOOL_OPS ==> r[k] == self@.op_record(k),
    {
        let o = Scalar::zero();
        let mut arr = [[o, o]; MAX_BOOL_OPS];
        let n = self.bool_ops.len();
        let mut k: usize = 0;
        while k < n
            invariant
                k <= n,
                forall|j: int| 0 <= j < k ==> arr[j] == self@.op_record(j),
                forall|j: int| k <= j < MAX_BOOL_OPS ==> arr[j] == [o, o],
            decreases n - k,
        {
            arr[k] = self.bool_ops[k].get();
            k = k + 1;
        }
        arr
    }

    /// The transform block: at each place the transform of the object whose
    /// record lies at that place of the object block, then records of zeros
    /// up to `MAX_OBJECTS`.
    #[verifier::loop_isolation(false)]
    pub fn get_transformations(&self) -> (r: [Record; MAX_OBJECTS])
        requires
            self@.wf(),
        ensures
            forall|k: int| 0 <= k < MAX_OBJECTS ==> r[k] == self@.transform_record(k),
    {
        let mut arr = [empty_record(); MAX_OBJECTS];
        let order = emission_order(&self.obj_boolops);
        let n = self.obj_transforms.len();
        let mut k: usize = 0;
        while k < n
            invariant
                k <= n,
                forall|j: int| 0 <= j < k ==> arr[j] == self@.transform_record(j),
                forall|j: int| k <= j < MAX_OBJECTS ==> arr[j] == zero_record(),
            decreases n - k,
        {
            let i = order[k];
            proof {
                lemma_object_at(self@.groups, k as int);
            }
            arr[k] = self.obj_transforms[i].get_data();
            k = k + 1;
        }
        arr
    }
}

/// In the object block every place below the number of objects starts with
/// the kind of a variant, which is not zero, and every place from there on
/// starts with zero: a reader finds the live records by the first scalar.
pub proof fn lemma_object_block_live(s: SceneView, k: int)
    requires
        s.wf(),
        0 <= k < MAX_OBJECTS,
    ensures
        s.object_record(k)[0][0] == Scalar::zero() <==> k >= s.objects.len(),
{
    if k < s.objects.len() {
        lemma_object_at(s.groups, k);
        lemma_from_count_injective(s.objects[object_at(s.groups, k)].kind(), 0);
    }
}

/// In the object block the members of one group lie side by side: between
/// two records that carry the same group, every record carries that group.
pub proof fn lemma_object_block_grouped(s: SceneView, a: int, b: int, c: int)
    requires
        s.wf(),
        0 <= a <= b <= c < s.objects.len(),
        s.object_record(a)[0][3] == s.object_record(c)[0][3],
    ensures
        s.object_record(b)[0][3] == s.object_record(a)[0][3],
{
    lemma_object_at(s.groups, a);
    lemma_object_at(s.groups, b);
    lemma_object_at(s.groups, c);
    let ga = s.groups[object_at(s.groups, a)];
    let gc = s.groups[object_at(s.groups, c)];
    lemma_from_count_injective(ga as nat, gc as nat);
    lemma_group_contiguous(s.groups, a, b, c);
}

/// In the object block the groups never fall from one record to the next,
/// and of two records that carry the same group the one of the object added
/// first comes first.
pub proof fn lemma_object_block_stable(s: SceneView, a: int, b: int)
    requires
        s.wf(),
        0 <= a < b < s.objects.len(),
    ensures
        s.groups[object_at(s.groups, a)] <= s.groups[object_at(s.groups, b)],
        s.object_record(a)[0][3] == s.object_record(b)[0][3] ==> object_at(s.groups, a)
            < object_at(s.groups, b),
{
    lemma_object_at(s.groups, a);
    lemma_object_at(s.groups, b);
    let ga = s.groups[object_at(s.groups, a)];
    let gb = s.groups[object_at(s.groups, b)];
    lemma_from_count_injective(ga as nat, gb as nat);
    lemma_output_sorted(s.groups, a, b);
}

} // verus!
