//! Exact three-dimensional vectors and four-by-four matrices.
//!
//! Coordinates are `i64` counts of thousandths of a scene unit
//! (see [`crate::UNIT`]). Every operation here is exact integer
//! arithmetic; nothing is rounded.

use vstd::prelude::*;

verus! {

/// Largest coordinate magnitude, in thousandths of a unit, that the
/// geometry functions accept. Keeping coordinates within this bound lets
/// products of two coordinates, and sums of three such products, fit in
/// `i64` with room to spare.
pub const COORD_BOUND: i64 = 1_000_000_000;

/// A point or direction with exact coordinates.
#[derive(Clone, Copy, Debug, PartialEq, Eq, Structural)]
pub struct Vec3 {
    pub x: i64,
    pub y: i64,
    pub z: i64,
}

impl Vec3 {
    /// All three coordinates lie within [`COORD_BOUND`].
    pub open spec fn in_range(self) -> bool {
        &&& -COORD_BOUND <= self.x <= COORD_BOUND
        &&& -COORD_BOUND <= self.y <= COORD_BOUND
        &&& -COORD_BOUND <= self.z <= COORD_BOUND
    }

    /// The origin, all coordinates zero.
    pub open spec fn spec_zero() -> Vec3 {
        Vec3 { x: 0, y: 0, z: 0 }
    }

    pub fn zero() -> (v: Vec3)
        ensures
            v == Vec3::spec_zero(),
    {
        Vec3 { x: 0, y: 0, z: 0 }
    }

    pub fn new(x: i64, y: i64, z: i64) -> (v: Vec3)
        ensures
            v.x == x && v.y == y && v.z == z,
    {
        Vec3 { x, y, z }
    }

    /// Whether the value is exactly the origin.
    pub fn is_zero(&self) -> (r: bool)
        ensures
            r <==> *self == Vec3::spec_zero(),
    {
        self.x == 0 && self.y == 0 && self.z == 0
    }

    /// Componentwise difference, `self - other`.
    pub fn sub(&self, other: &Vec3) -> (d: Vec3)
        requires
            self.in_range(),
            other.in_range(),
        ensures
            d.x == self.x - other.x,
            d.y == self.y - other.y,
            d.z == self.z - other.z,
    {
        Vec3 { x: self.x - other.x, y: self.y - other.y, z: self.z - other.z }
    }

    /// The squared distance from the origin, as a mathematical integer.
    pub open spec fn norm_sq(self) -> int {
        self.x * self.x + self.y * self.y + self.z * self.z
    }

    /// The cross product with `other`. Zero exactly when the two vectors
    /// are parallel (or one of them is zero).
    pub fn cross(&self, other: &Vec3) -> (c: Vec3)
        requires
            self.in_range(),
            other.in_range(),
        ensures
            c.x == self.y * other.z - self.z * other.y,
            c.y == self.z * other.x - self.x * other.z,
            c.z == self.x * other.y - self.y * other.x,
    {
        proof {
            lemma_coord_product_bound(self.y as int, other.z as int);
            lemma_coord_product_bound(self.z as int, other.y as int);
            lemma_coord_product_bound(self.z as int, other.x as int);
            lemma_coord_product_bound(self.x as int, other.z as int);
            lemma_coord_product_bound(self.x as int, other.y as int);
            lemma_coord_product_bound(self.y as int, other.x as int);
        }
        Vec3 {
            x: self.y * other.z - self.z * other.y,
            y: self.z * other.x - self.x * other.z,
            z: self.x * other.y - self.y * other.x,
        }
    }
}

/// A four-by-four matrix with exact entries, stored column-major:
/// entry at row `r` of column `c` sits at index `4 * c + r`. A value of
/// [`crate::UNIT`] denotes `1.0`, matching the coordinate scale of [`Vec3`].
pub type Mat4 = [i64; 16];

/// Entry `i` of the matrix that translates by `p` and does nothing else.
pub open spec fn translation_entry(p: Vec3, i: int) -> int {
    if i == 0 || i == 5 || i == 10 || i == 15 {
        crate::UNIT as int
    } else if i == 12 {
        p.x as int
    } else if i == 13 {
        p.y as int
    } else if i == 14 {
        p.z as int
    } else {
        0
    }
}

/// Entry `i` of the identity matrix.
pub open spec fn identity_entry(i: int) -> int {
    if i == 0 || i == 5 || i == 10 || i == 15 {
        crate::UNIT as int
    } else {
        0
    }
}

/// An affine transform: its last row is `0 0 0 1`, so composing a
/// translation with it stays exact.
pub open spec fn is_affine(m: Seq<int>) -> bool {
    &&& m.len() == 16
    &&& m[3] == 0
    &&& m[7] == 0
    &&& m[11] == 0
    &&& m[15] == crate::UNIT as int
}

/// Entry `i` of the product `T(p) * R` for an affine `R`: the rotation
/// columns pass through unchanged and the translation lands in column 3.
pub open spec fn model_matrix_entry(p: Vec3, rot: Seq<int>, i: int) -> int {
    if i == 12 {
        rot[12] + p.x
    } else if i == 13 {
        rot[13] + p.y
    } else if i == 14 {
        rot[14] + p.z
    } else {
        rot[i]
    }
}

/// The identity matrix, with exact entries.
pub fn identity_matrix() -> (m: Mat4)
    ensures
        forall|i: int| 0 <= i < 16 ==> m@[i] == identity_entry(i),
        is_affine(m@.map_values(|v: i64| v as int)),
{
    let m: Mat4 = [
        crate::UNIT, 0, 0, 0,
        0, crate::UNIT, 0, 0,
        0, 0, crate::UNIT, 0,
        0, 0, 0, crate::UNIT,
    ];
    proof {
        assert(forall|i: int| 0 <= i < 16 ==> m@[i] == identity_entry(i)) by {
            assert(m@ =~= seq![
                crate::UNIT, 0, 0, 0,
                0, crate::UNIT, 0, 0,
                0, 0, crate::UNIT, 0,
                0, 0, 0, crate::UNIT,
            ]);
        }
    }
    m
}

/// The matrix that translates by `p`.
pub fn translation_matrix(p: &Vec3) -> (m: Mat4)
    ensures
        forall|i: int| 0 <= i < 16 ==> m@[i] == translation_entry(*p, i),
{
    let m: Mat4 = [
        crate::UNIT, 0, 0, 0,
        0, crate::UNIT, 0, 0,
        0, 0, crate::UNIT, 0,
        p.x, p.y, p.z, crate::UNIT,
    ];
    proof {
        assert(forall|i: int| 0 <= i < 16 ==> m@[i] == translation_entry(*p, i)) by {
            assert(m@ =~= seq![
                crate::UNIT, 0, 0, 0,
                0, crate::UNIT, 0, 0,
                0, 0, crate::UNIT, 0,
                p.x, p.y, p.z, crate::UNIT,
            ]);
        }
    }
    m
}

/// The model matrix of an instance: the translation by `position`
/// composed with the affine transform `rotation`, `T(position) * rotation`.
/// Because the last row of `rotation` is `0 0 0 1`, the product is exact:
/// the first three columns are those of `rotation`, and `position` is added
/// to column 3.
pub fn model_matrix(position: &Vec3, rotation: &Mat4) -> (m: Mat4)
    requires
        position.in_range(),
        is_affine(rotation@.map_values(|v: i64| v as int)),
        forall|i: int| 0 <= i < 16 ==> -COORD_BOUND <= #[trigger] rotation@[i] <= COORD_BOUND,
    ensures
        forall|i: int|
            0 <= i < 16 ==> m@[i] == model_matrix_entry(
                *position,
                rotation@.map_values(|v: i64| v as int),
                i,
            ),
{
    let ghost rot = rotation@.map_values(|v: i64| v as int);
    let m: Mat4 = [
        rotation[0], rotation[1], rotation[2], rotation[3],
        rotation[4], rotation[5], rotation[6], rotation[7],
        rotation[8], rotation[9], rotation[10], rotation[11],
        rotation[12] + position.x, rotation[13] + position.y, rotation[14] + position.z,
        rotation[15],
    ];
    proof {
        assert forall|i: int| 0 <= i < 16 implies m@[i] == model_matrix_entry(*position, rot, i) by {
            assert(rot[i] == rotation@[i]);
        }
    }
    m
}

/// Composing a translation with the identity rotation gives exactly the
/// translation matrix: `T(p) * I == T(p)`, entry by entry.
pub proof fn lemma_model_matrix_identity(p: Vec3)
    ensures
        forall|i: int|
            0 <= i < 16 ==> model_matrix_entry(p, Seq::new(16, |j: int| identity_entry(j)), i)
                == translation_entry(p, i),
{
}

/// The product of two in-range coordinates stays well within `i64`.
proof fn lemma_coord_product_bound(a: int, b: int)
    requires
        -COORD_BOUND <= a <= COORD_BOUND,
        -COORD_BOUND <= b <= COORD_BOUND,
    ensures
        -(COORD_BOUND * COORD_BOUND) <= a * b <= COORD_BOUND * COORD_BOUND,
{
    assert(-(COORD_BOUND * COORD_BOUND) <= a * b) by (nonlinear_arith)
        requires
            -COORD_BOUND <= a <= COORD_BOUND,
            -COORD_BOUND <= b <= COORD_BOUND,
    ;
    assert(a * b <= COORD_BOUND * COORD_BOUND) by (nonlinear_arith)
        requires
            -COORD_BOUND <= a <= COORD_BOUND,
            -COORD_BOUND <= b <= COORD_BOUND,
    ;
}

} // verus!
