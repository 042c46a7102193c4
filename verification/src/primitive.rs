use vstd::prelude::*;
use crate::scalar::{lemma_from_count_injective, Scalar, COUNT_LIMIT};
use crate::vec3::{Point3, Rgb, Vec3};

verus! {

/// The block of four rows of four scalars that stands for one primitive or
/// one transform.
pub type Record = [[Scalar; 4]; 4];

/// A shape with a signed distance function. Each variant holds the shape's
/// own parameters, then its colour.
#[derive(Clone, Copy, Debug, PartialEq, Eq, Structural)]
pub enum Primitive {
    /// Radius.
    Sphere(Scalar, Rgb),
    /// Normal, distance along the normal.
    Plane(Vec3, Scalar, Rgb),
    /// Dimensions, rounding.
    Cuboid(Vec3, Scalar, Rgb),
    /// Dimensions, edge thickness.
    BoxFrame(Vec3, Scalar, Rgb),
    /// Inner radius, outer radius.
    Torus(Scalar, Scalar, Rgb),
    /// Inner radius, outer radius, cap a, cap b.
    Horseshoe(Scalar, Scalar, Scalar, Scalar, Rgb),
    /// Length, radius 1, radius 2.
    Link(Scalar, Scalar, Scalar, Rgb),
    /// Angle, height.
    Cone(Scalar, Scalar, Rgb),
    /// Radius, height.
    HexagonalPrism(Scalar, Scalar, Rgb),
    /// Radius, height.
    TriangularPrism(Scalar, Scalar, Rgb),
    /// Height, radius.
    Capsule(Scalar, Scalar, Rgb),
    /// Height, radius.
    CappedCylinder(Scalar, Scalar, Rgb),
    /// Larger radius, smaller radius, height.
    RoundedCylinder(Scalar, Scalar, Scalar, Rgb),
    /// Height, radius 1, radius 2.
    CappedCone(Scalar, Scalar, Scalar, Rgb),
    /// Angle, rounding.
    SolidAngle(Scalar, Scalar, Rgb),
    /// Radius, height.
    CutSphere(Scalar, Scalar, Rgb),
    /// Radius, height, thickness.
    CutHollowSphere(Scalar, Scalar, Scalar, Rgb),
    /// Radius 1, radius 2, distance.
    DeathStar(Scalar, Scalar, Scalar, Rgb),
    /// Radius 1, radius 2, height.
    RoundCone(Scalar, Scalar, Scalar, Rgb),
    /// Radii.
    Ellipsoid(Vec3, Rgb),
    /// Length a, length b, height, corner radius.
    Rhombus(Scalar, Scalar, Scalar, Scalar, Rgb),
    /// Side length.
    Octahedron(Scalar, Rgb),
    /// Height.
    Pyramid(Scalar, Rgb),
    /// The three corners.
    Triangle(Point3, Point3, Point3, Rgb),
}

/// The row that holds `v` and then `w`.
pub open spec fn row_of(v: Vec3, w: Scalar) -> [Scalar; 4] {
    [v.x, v.y, v.z, w]
}

/// The row of four zeros.
pub open spec fn zero_row() -> [Scalar; 4] {
    [Scalar::zero(), Scalar::zero(), Scalar::zero(), Scalar::zero()]
}

impl Primitive {
    /// The number that tells the variant in a record: 1 for the first
    /// variant of the declaration, up to 24 for the last.
    pub open spec fn kind(self) -> nat {
        match self {
            Primitive::Sphere(..) => 1,
            Primitive::Plane(..) => 2,
            Primitive::Cuboid(..) => 3,
            Primitive::BoxFrame(..) => 4,
            Primitive::Torus(..) => 5,
            Primitive::Horseshoe(..) => 6,
            Primitive::Link(..) => 7,
            Primitive::Cone(..) => 8,
            Primitive::HexagonalPrism(..) => 9,
            Primitive::TriangularPrism(..) => 10,
            Primitive::Capsule(..) => 11,
            Primitive::CappedCylinder(..) => 12,
            Primitive::RoundedCylinder(..) => 13,
            Primitive::CappedCone(..) => 14,
            Primitive::SolidAngle(..) => 15,
            Primitive::CutSphere(..) => 16,
            Primitive::CutHollowSphere(..) => 17,
            Primitive::DeathStar(..) => 18,
            Primitive::RoundCone(..) => 19,
            Primitive::Ellipsoid(..) => 20,
            Primitive::Rhombus(..) => 21,
            Primitive::Octahedron(..) => 22,
            Primitive::Pyramid(..) => 23,
            Primitive::Triangle(..) => 24,
        }
    }

    /// The variant's name in words.
    pub open spec fn name(self) -> Seq<char> {
        match self {
            Primitive::Sphere(..) => "Sphere"@,
            Primitive::Plane(..) => "Plane"@,
            Primitive::Cuboid(..) => "Cuboid"@,
            Primitive::BoxFrame(..) => "Box Frame"@,
            Primitive::Torus(..) => "Torus"@,
            Primitive::Horseshoe(..) => "Horseshoe"@,
            Primitive::Link(..) => "Link"@,
            Primitive::Cone(..) => "Cone"@,
            Primitive::HexagonalPrism(..) => "Hexagonal Prism"@,
            Primitive::TriangularPrism(..) => "Triangular Prism"@,
            Primitive::Capsule(..) => "Capsule"@,
            Primitive::CappedCylinder(..) => "Capped Cylinder"@,
            Primitive::RoundedCylinder(..) => "Rounded Cylinder"@,
            Primitive::CappedCone(..) => "Capped Cone"@,
            Primitive::SolidAngle(..) => "Solid Angle"@,
            Primitive::CutSphere(..) => "Cut Sphere"@,
            Primitive::CutHollowSphere(..) => "Cut Hollow Sphere"@,
            Primitive::DeathStar(..) => "Death Star"@,
            Primitive::RoundCone(..) => "Round Cone"@,
            Primitive::Ellipsoid(..) => "Ellipsoid"@,
            Primitive::Rhombus(..) => "Rhombus"@,
            Primitive::Octahedron(..) => "Octahedron"@,
            Primitive::Pyramid(..) => "Pyramid"@,
            Primitive::Triangle(..) => "Triangle"@,
        }
    }

    /// The colour, the last field of every variant.
    pub open spec fn color(self) -> Rgb {
        match self {
            Primitive::Sphere(_, c) => c,
            Primitive::Plane(_, _, c) => c,
            Primitive::Cuboid(_, _, c) => c,
            Primitive::BoxFrame(_, _, c) => c,
            Primitive::Torus(_, _, c) => c,
            Primitive::Horseshoe(_, _, _, _, c) => c,
            Primitive::Link(_, _, _, c) => c,
            Primitive::Cone(_, _, c) => c,
            Primitive::HexagonalPrism(_, _, c) => c,
            Primitive::TriangularPrism(_, _, c) => c,
            Primitive::Capsule(_, _, c) => c,
            Primitive::CappedCylinder(_, _, c) => c,
            Primitive::RoundedCylinder(_, _, _, c) => c,
            Primitive::CappedCone(_, _, _, c) => c,
            Primitive::SolidAngle(_, _, c) => c,
            Primitive::CutSphere(_, _, c) => c,
            Primitive::CutHollowSphere(_, _, _, c) => c,
            Primitive::DeathStar(_, _, _, c) => c,
            Primitive::RoundCone(_, _, _, c) => c,
            Primitive::Ellipsoid(_, c) => c,
            Primitive::Rhombus(_, _, _, _, c) => c,
            Primitive::Octahedron(_, c) => c,
            Primitive::Pyramid(_, c) => c,
            Primitive::Triangle(_, _, _, c) => c,
        }
    }

    /// The two scalars of row 0 that lie between the kind and the group.
    /// A shape of one scalar has it in the first place. A shape of two
    /// scalars has them here in the order of its fields. A shape of a vector
    /// and a scalar has the scalar in the first place. Every other shape
    /// leaves both zero.
    pub open spec fn head(self) -> (Scalar, Scalar) {
        match self {
            Primitive::Sphere(a, _) => (a, Scalar::zero()),
            Primitive::Octahedron(a, _) => (a, Scalar::zero()),
            Primitive::Pyramid(a, _) => (a, Scalar::zero()),
            Primitive::Plane(_, a, _) => (a, Scalar::zero()),
            Primitive::Cuboid(_, a, _) => (a, Scalar::zero()),
            Primitive::BoxFrame(_, a, _) => (a, Scalar::zero()),
            Primitive::Torus(a, b, _) => (a, b),
            Primitive::Cone(a, b, _) => (a, b),
            Primitive::HexagonalPrism(a, b, _) => (a, b),
            Primitive::TriangularPrism(a, b, _) => (a, b),
            Primitive::Capsule(a, b, _) => (a, b),
            Primitive::CappedCylinder(a, b, _) => (a, b),
            Primitive::SolidAngle(a, b, _) => (a, b),
            Primitive::CutSphere(a, b, _) => (a, b),
            _ => (Scalar::zero(), Scalar::zero()),
        }
    }

    /// Row 1. A shape of three or four scalars has them here in the order of
    /// its fields, an ellipsoid its radii. A triangle has its first corner
    /// here, and in the last place the `x` of its third corner. Every other
    /// shape leaves the row zero.
    pub open spec fn quad(self) -> [Scalar; 4] {
        match self {
            Primitive::Horseshoe(a, b, c, d, _) => [a, b, c, d],
            Primitive::Rhombus(a, b, c, d, _) => [a, b, c, d],
            Primitive::Link(a, b, c, _) => [a, b, c, Scalar::zero()],
            Primitive::RoundedCylinder(a, b, c, _) => [a, b, c, Scalar::zero()],
            Primitive::CappedCone(a, b, c, _) => [a, b, c, Scalar::zero()],
            Primitive::CutHollowSphere(a, b, c, _) => [a, b, c, Scalar::zero()],
            Primitive::DeathStar(a, b, c, _) => [a, b, c, Scalar::zero()],
            Primitive::RoundCone(a, b, c, _) => [a, b, c, Scalar::zero()],
            Primitive::Ellipsoid(v, _) => row_of(v, Scalar::zero()),
            Primitive::Triangle(first, _, last, _) => row_of(first, last.x),
            _ => zero_row(),
        }
    }

    /// Row 2. A shape of a vector and a scalar has the vector here. A
    /// triangle has its second corner here, and in the last place the `y` of
    /// its third corner. Every other shape leaves the row zero.
    pub open spec fn extent(self) -> [Scalar; 4] {
        match self {
            Primitive::Plane(v, _, _) => row_of(v, Scalar::zero()),
            Primitive::Cuboid(v, _, _) => row_of(v, Scalar::zero()),
            Primitive::BoxFrame(v, _, _) => row_of(v, Scalar::zero()),
            Primitive::Triangle(_, second, last, _) => row_of(second, last.y),
            _ => zero_row(),
        }
    }

    /// The last place of row 3, behind the colour: the `z` of a triangle's
    /// third corner, and zero for every other shape.
    pub open spec fn extra(self) -> Scalar {
        match self {
            Primitive::Triangle(_, _, last, _) => last.z,
            _ => Scalar::zero(),
        }
    }

    /// The record of the primitive as a member of `op_group`.
    ///
    /// Whatever the shape, row 0 starts with the kind and ends with the
    /// group, and row 3 starts with the colour.
    pub open spec fn spec_as_data(self, op_group: Scalar) -> Record {
        [
            [Scalar::spec_from_count(self.kind()), self.head().0, self.head().1, op_group],
            self.quad(),
            self.extent(),
            row_of(self.color(), self.extra()),
        ]
    }

    /// The kind of the variant.
    pub fn id(&self) -> (r: usize)
        ensures
            r == self.kind(),
            1 <= r <= 24,
    {
        match self {
            Primitive::Sphere(..) => 1,
            Primitive::Plane(..) => 2,
            Primitive::Cuboid(..) => 3,
            Primitive::BoxFrame(..) => 4,
            Primitive::Torus(..) => 5,
            Primitive::Horseshoe(..) => 6,
            Primitive::Link(..) => 7,
            Primitive::Cone(..) => 8,
            Primitive::HexagonalPrism(..) => 9,
            Primitive::TriangularPrism(..) => 10,
            Primitive::Capsule(..) => 11,
            Primitive::CappedCylinder(..) => 12,
            Primitive::RoundedCylinder(..) => 13,
            Primitive::CappedCone(..) => 14,
            Primitive::SolidAngle(..) => 15,
            Primitive::CutSphere(..) => 16,
            Primitive::CutHollowSphere(..) => 17,
            Primitive::DeathStar(..) => 18,
            Primitive::RoundCone(..) => 19,
            Primitive::Ellipsoid(..) => 20,
            Primitive::Rhombus(..) => 21,
            Primitive::Octahedron(..) => 22,
            Primitive::Pyramid(..) => 23,
            Primitive::Triangle(..) => 24,
        }
    }

    /// The name of the variant, for display.
    pub fn as_str(&self) -> (r: String)
        ensures
            r@ == self.name(),
    {
        match self {
            Primitive::Sphere(..) => "Sphere".to_owned(),
            Primitive::Plane(..) => "Plane".to_owned(),
            Primitive::Cuboid(..) => "Cuboid".to_owned(),
            Primitive::BoxFrame(..) => "Box Frame".to_owned(),
            Primitive::Torus(..) => "Torus".to_owned(),
            Primitive::Horseshoe(..) => "Horseshoe".to_owned(),
            Primitive::Link(..) => "Link".to_owned(),
            Primitive::Cone(..) => "Cone".to_owned(),
            Primitive::HexagonalPrism(..) => "Hexagonal Prism".to_owned(),
            Primitive::TriangularPrism(..) => "Triangular Prism".to_owned(),
            Primitive::Capsule(..) => "Capsule".to_owned(),
            Primitive::CappedCylinder(..) => "Capped Cylinder".to_owned(),
            Primitive::RoundedCylinder(..) => "Rounded Cylinder".to_owned(),
            Primitive::CappedCone(..) => "Capped Cone".to_owned(),
            Primitive::SolidAngle(..) => "Solid Angle".to_owned(),
            Primitive::CutSphere(..) => "Cut Sphere".to_owned(),
            Primitive::CutHollowSphere(..) => "Cut Hollow Sphere".to_owned(),
            Primitive::DeathStar(..) => "Death Star".to_owned(),
            Primitive::RoundCone(..) => "Round Cone".to_owned(),
            Primitive::Ellipsoid(..) => "Ellipsoid".to_owned(),
            Primitive::Rhombus(..) => "Rhombus".to_owned(),
            Primitive::Octahedron(..) => "Octahedron".to_owned(),
            Primitive::Pyramid(..) => "Pyramid".to_owned(),
            Primitive::Triangle(..) => "Triangle".to_owned(),
        }
    }

    /// The record of the primitive as a member of `op_group`.
    pub fn as_data(&self, op_group: Scalar) -> (r: Record)
        ensures
            r == self.spec_as_data(op_group),
            r[0][0] == Scalar::spec_from_count(self.kind()),
            r[0][3] == op_group,
            r[3][0] == self.color().x,
            r[3][1] == self.color().y,
            r[3][2] == self.color().z,
    {
        let o = Scalar::zero();
        let id = Scalar::from_count(self.id());
        match self {
            Primitive::Sphere(rad, color) => [
                [id, *rad, o, op_group],
                [o, o, o, o],
                [o, o, o, o],
                [color.x, color.y, color.z, o],
            ],
            Primitive::Plane(normal, k, color) => [
                [id, *k, o, op_group],
                [o, o, o, o],
                [normal.x, normal.y, normal.z, o],
                [color.x, color.y, color.z, o],
            ],
            Primitive::Cuboid(dims, rounding, color) => [
                [id, *rounding, o, op_group],
                [o, o, o, o],
                [dims.x, dims.y, dims.z, o],
                [color.x, color.y, color.z, o],
            ],
            Primitive::BoxFrame(dims, edge, color) => [
                [id, *edge, o, op_group],
                [o, o, o, o],
                [dims.x, dims.y, dims.z, o],
                [color.x, color.y, color.z, o],
            ],
            Primitive::Torus(in_rad, out_rad, color) => [
                [id, *in_rad, *out_rad, op_group],
                [o, o, o, o],
                [o, o, o, o],
                [color.x, color.y, color.z, o],
            ],
            Primitive::Horseshoe(in_rad, out_rad, capa, capb, color) => [
                [id, o, o, op_group],
                [*in_rad, *out_rad, *capa, *capb],
                [o, o, o, o],
                [color.x, color.y, color.z, o],
            ],
            Primitive::Link(length, rad1, rad2, color) => [
                [id, o, o, op_group],
                [*length, *rad1, *rad2, o],
                [o, o, o, o],
                [color.x, color.y, color.z, o],
            ],
            Primitive::Cone(angle, height, color) => [
                [id, *angle, *height, op_group],
                [o, o, o, o],
                [o, o, o, o],
                [color.x, color.y, color.z, o],
            ],
            Primitive::HexagonalPrism(radius, height, color) => [
                [id, *radius, *height, op_group],
                [o, o, o, o],
                [o, o, o, o],
                [color.x, color.y, color.z, o],
            ],
            Primitive::TriangularPrism(radius, height, color) => [
                [id, *radius, *height, op_group],
                [o, o, o, o],
                [o, o, o, o],
                [color.x, color.y, color.z, o],
            ],
            Primitive::Capsule(height, radius, color) => [
                [id, *height, *radius, op_group],
                [o, o, o, o],
                [o, o, o, o],
                [color.x, color.y, color.z, o],
            ],
            Primitive::CappedCylinder(height, radius, color) => [
                [id, *height, *radius, op_group],
                [o, o, o, o],
                [o, o, o, o],
                [color.x, color.y, color.z, o],
            ],
            Primitive::RoundedCylinder(rad1, rad2, height, color) => [
                [id, o, o, op_group],
                [*rad1, *rad2, *height, o],
                [o, o, o, o],
                [color.x, color.y, color.z, o],
            ],
            Primitive::CappedCone(height, rad1, rad2, color) => [
                [id, o, o, op_group],
                [*height, *rad1, *rad2, o],
                [o, o, o, o],
                [color.x, color.y, color.z, o],
            ],
            Primitive::SolidAngle(angle, rounding, color) => [
                [id, *angle, *rounding, op_group],
                [o, o, o, o],
                [o, o, o, o],
                [color.x, color.y, color.z, o],
            ],
            Primitive::CutSphere(radius, height, color) => [
                [id, *radius, *height, op_group],
                [o, o, o, o],
                [o, o, o, o],
                [color.x, color.y, color.z, o],
            ],
            Primitive::CutHollowSphere(radius, height, thickness, color) => [
                [id, o, o, op_group],
                [*radius, *height, *thickness, o],
                [o, o, o, o],
                [color.x, color.y, color.z, o],
            ],
            Primitive::DeathStar(radius1, radius2, d, color) => [
                [id, o, o, op_group],
                [*radius1, *radius2, *d, o],
                [o, o, o, o],
                [color.x, color.y, color.z, o],
            ],
            Primitive::RoundCone(rad1, rad2, height, color) => [
                [id, o, o, op_group],
                [*rad1, *rad2, *height, o],
                [o, o, o, o],
                [color.x, color.y, color.z, o],
            ],
            Primitive::Ellipsoid(radii, color) => [
                [id, o, o, op_group],
                [radii.x, radii.y, radii.z, o],
                [o, o, o, o],
                [color.x, color.y, color.z, o],
            ],
            Primitive::Rhombus(la, lb, height, ra, color) => [
                [id, o, o, op_group],
                [*la, *lb, *height, *ra],
                [o, o, o, o],
                [color.x, color.y, color.z, o],
            ],
            Primitive::Octahedron(side, color) => [
                [id, *side, o, op_group],
                [o, o, o, o],
                [o, o, o, o],
                [color.x, color.y, color.z, o],
            ],
            Primitive::Pyramid(height, color) => [
                [id, *height, o, op_group],
                [o, o, o, o],
                [o, o, o, o],
                [color.x, color.y, color.z, o],
            ],
            Primitive::Triangle(first, second, last, color) => [
                [id, o, o, op_group],
                [first.x, first.y, first.z, last.x],
                [second.x, second.y, second.z, last.y],
                [color.x, color.y, color.z, last.z],
            ],
        }
    }

    /// The primitive that a record stands for, if row 0 starts with the kind
    /// of a variant: the variant of that kind, its fields read from the
    /// places where `spec_as_data` puts them. The group, and the places that
    /// the variant leaves zero, are not looked at.
    pub open spec fn spec_from_data(record: Record) -> Option<Primitive> {
        let tag = record[0][0];
        let a = record[0][1];
        let b = record[0][2];
        let q0 = record[1][0];
        let q1 = record[1][1];
        let q2 = record[1][2];
        let q3 = record[1][3];
        let qv = Vec3 { x: q0, y: q1, z: q2 };
        let ev = Vec3 { x: record[2][0], y: record[2][1], z: record[2][2] };
        let third = Vec3 { x: q3, y: record[2][3], z: record[3][3] };
        let c = Vec3 { x: record[3][0], y: record[3][1], z: record[3][2] };
        if tag == Scalar::spec_from_count(1) {
            Some(Primitive::Sphere(a, c))
        } else if tag == Scalar::spec_from_count(2) {
            Some(Primitive::Plane(ev, a, c))
        } else if tag == Scalar::spec_from_count(3) {
            Some(Primitive::Cuboid(ev, a, c))
        } else if tag == Scalar::spec_from_count(4) {
            Some(Primitive::BoxFrame(ev, a, c))
        } else if tag == Scalar::spec_from_count(5) {
            Some(Primitive::Torus(a, b, c))
        } else if tag == Scalar::spec_from_count(6) {
            Some(Primitive::Horseshoe(q0, q1, q2, q3, c))
        } else if tag == Scalar::spec_from_count(7) {
            Some(Primitive::Link(q0, q1, q2, c))
        } else if tag == Scalar::spec_from_count(8) {
            Some(Primitive::Cone(a, b, c))
        } else if tag == Scalar::spec_from_count(9) {
            Some(Primitive::HexagonalPrism(a, b, c))
        } else if tag == Scalar::spec_from_count(10) {
            Some(Primitive::TriangularPrism(a, b, c))
        } else if tag == Scalar::spec_from_count(11) {
            Some(Primitive::Capsule(a, b, c))
        } else if tag == Scalar::spec_from_count(12) {
            Some(Primitive::CappedCylinder(a, b, c))
        } else if tag == Scalar::spec_from_count(13) {
            Some(Primitive::RoundedCylinder(q0, q1, q2, c))
        } else if tag == Scalar::spec_from_count(14) {
            Some(Primitive::CappedCone(q0, q1, q2, c))
        } else if tag == Scalar::spec_from_count(15) {
            Some(Primitive::SolidAngle(a, b, c))
        } else if tag == Scalar::spec_from_count(16) {
            Some(Primitive::CutSphere(a, b, c))
        } else if tag == Scalar::spec_from_count(17) {
            Some(Primitive::CutHollowSphere(q0, q1, q2, c))
        } else if tag == Scalar::spec_from_count(18) {
            Some(Primitive::DeathStar(q0, q1, q2, c))
        } else if tag == Scalar::spec_from_count(19) {
            Some(Primitive::RoundCone(q0, q1, q2, c))
        } else if tag == Scalar::spec_from_count(20) {
            Some(Primitive::Ellipsoid(qv, c))
        } else if tag == Scalar::spec_from_count(21) {
            Some(Primitive::Rhombus(q0, q1, q2, q3, c))
        } else if tag == Scalar::spec_from_count(22) {
            Some(Primitive::Octahedron(a, c))
        } else if tag == Scalar::spec_from_count(23) {
            Some(Primitive::Pyramid(a, c))
        } else if tag == Scalar::spec_from_count(24) {
            Some(Primitive::Triangle(qv, ev, third, c))
        } else {
            None
        }
    }

    /// The primitive that `record` stands for, or `None` where row 0 does
    /// not start with the kind of a variant.
    pub fn from_data(record: &Record) -> (r: Option<Primitive>)
        ensures
            r == Primitive::spec_from_data(*record),
    {
        let a = record[0][1];
        let b = record[0][2];
        let q0 = record[1][0];
        let q1 = record[1][1];
        let q2 = record[1][2];
        let q3 = record[1][3];
        let qv = Vec3 { x: q0, y: q1, z: q2 };
        let ev = Vec3 { x: record[2][0], y: record[2][1], z: record[2][2] };
        let third = Vec3 { x: q3, y: record[2][3], z: record[3][3] };
        let c = Vec3 { x: record[3][0], y: record[3][1], z: record[3][2] };
        let kind = record[0][0].as_count();
        proof {
            if kind is Some {
                lemma_kinds_apart(kind->0 as nat);
            }
        }
        match kind {
            Some(1) => Some(Primitive::Sphere(a, c)),
            Some(2) => Some(Primitive::Plane(ev, a, c)),
            Some(3) => Some(Primitive::Cuboid(ev, a, c)),
            Some(4) => Some(Primitive::BoxFrame(ev, a, c)),
            Some(5) => Some(Primitive::Torus(a, b, c)),
            Some(6) => Some(Primitive::Horseshoe(q0, q1, q2, q3, c)),
            Some(7) => Some(Primitive::Link(q0, q1, q2, c)),
            Some(8) => Some(Primitive::Cone(a, b, c)),
            Some(9) => Some(Primitive::HexagonalPrism(a, b, c)),
            Some(10) => Some(Primitive::TriangularPrism(a, b, c)),
            Some(11) => Some(Primitive::Capsule(a, b, c)),
            Some(12) => Some(Primitive::CappedCylinder(a, b, c)),
            Some(13) => Some(Primitive::RoundedCylinder(q0, q1, q2, c)),
            Some(14) => Some(Primitive::CappedCone(q0, q1, q2, c)),
            Some(15) => Some(Primitive::SolidAngle(a, b, c)),
            Some(16) => Some(Primitive::CutSphere(a, b, c)),
            Some(17) => Some(Primitive::CutHollowSphere(q0, q1, q2, c)),
            Some(18) => Some(Primitive::DeathStar(q0, q1, q2, c)),
            Some(19) => Some(Primitive::RoundCone(q0, q1, q2, c)),
            Some(20) => Some(Primitive::Ellipsoid(qv, c)),
            Some(21) => Some(Primitive::Rhombus(q0, q1, q2, q3, c)),
            Some(22) => Some(Primitive::Octahedron(a, c)),
            Some(23) => Some(Primitive::Pyramid(a, c)),
            Some(24) => Some(Primitive::Triangle(qv, ev, third, c)),
            _ => None,
        }
    }
}

/// The patterns of the kinds 1 to 24 differ from one another, and from the
/// pattern of any other count.
pub proof fn lemma_kinds_apart(n: nat)
    requires
        n < COUNT_LIMIT,
    ensures
        forall|k: nat|
            1 <= k <= 24 ==> (#[trigger] Scalar::spec_from_count(k) == Scalar::spec_from_count(n)
                <==> k == n),
{
    assert forall|k: nat| 1 <= k <= 24 implies (#[trigger] Scalar::spec_from_count(k)
        == Scalar::spec_from_count(n) <==> k == n) by {
        lemma_from_count_injective(k, n);
    }
}

/// Reading a record back gives the primitive that it was made from, with
/// every parameter and the colour bit for bit, whatever the group.
pub proof fn lemma_from_data_as_data(p: Primitive, op_group: Scalar)
    ensures
        Primitive::spec_from_data(p.spec_as_data(op_group)) == Some(p),
{
    lemma_kinds_apart(p.kind());
}

} // verus!
