//! The instance grid: where each copy of the model stands and how it is
//! turned.
//!
//! The scene is a square lattice of instances in the ground plane,
//! centered by subtracting half the grid's extent. Two rotation policies
//! exist side by side: the plain grid leaves every instance unturned,
//! while the tilted grid turns each instance 45 degrees about the axis
//! pointing away from the origin — except the instance at the origin
//! itself, which has no such axis and stays unturned.

use vstd::prelude::*;
use crate::geom::{
    identity_matrix, model_matrix, translation_entry, model_matrix_entry, identity_entry, Mat4,
    Vec3, COORD_BOUND,
};

verus! {

/// How an instance is turned. The axis of `AxisAngleMdeg` is given
/// unnormalized, in thousandths of a unit; the angle in thousandths of a
/// degree. The embedding normalizes the axis before building the
/// quaternion, so the axis must not be zero.
#[derive(Clone, Copy, Debug, PartialEq, Eq, Structural)]
pub enum Rotation {
    Identity,
    AxisAngleMdeg { axis: Vec3, angle_mdeg: i64 },
}

/// The two instance-rotation policies the scene can be generated with.
#[derive(Clone, Copy, Debug, PartialEq, Eq, Structural)]
pub enum RotationPolicy {
    /// Every instance keeps the identity rotation.
    Grid,
    /// Each instance turns 45 degrees about the axis from the origin to
    /// its own position; the instance at the origin stays unturned.
    TiltedGrid,
}

/// One instance: a position and a rotation. The flattened matrix handed
/// to the GPU is always `translation(position) * rotation`, derived from
/// these two fields and never edited by hand.
#[derive(Clone, Copy, Debug, PartialEq, Eq, Structural)]
pub struct InstanceDesc {
    pub position: Vec3,
    pub rotation: Rotation,
}

/// Lattice coordinate `i` of a row of `n` instances spaced `s` apart:
/// `i * s`, shifted left by half the grid's extent.
pub open spec fn lattice_coord(n: u32, s: i64, i: int) -> int {
    i * s - (n * s) / 2
}

/// The rotation the policy assigns to an instance standing at `p`.
pub open spec fn rotation_at(policy: RotationPolicy, p: Vec3) -> Rotation {
    match policy {
        RotationPolicy::Grid => Rotation::Identity,
        RotationPolicy::TiltedGrid => if p == Vec3::spec_zero() {
            Rotation::Identity
        } else {
            Rotation::AxisAngleMdeg { axis: p, angle_mdeg: (45 * crate::UNIT) as i64 }
        },
    }
}

/// Instance `idx` of the grid, row by row: `idx == z * n + x` places it
/// at lattice column `x` and row `z`, on the ground plane.
pub open spec fn instance_at(n: u32, s: i64, policy: RotationPolicy, idx: int) -> InstanceDesc {
    let x = idx % (n as int);
    let z = idx / (n as int);
    let p = Vec3 {
        x: lattice_coord(n, s, x) as i64,
        y: 0,
        z: lattice_coord(n, s, z) as i64,
    };
    InstanceDesc { position: p, rotation: rotation_at(policy, p) }
}

/// Generates the `n * n` instances of the scene, row by row.
///
/// The spacing `s` is in thousandths of a unit and must be even, so that
/// half the grid's extent is a whole number of thousandths and the
/// centering is exact.
pub fn make_instances(n: u32, s: i64, policy: RotationPolicy) -> (v: Vec<InstanceDesc>)
    requires
        n <= 1000,
        0 < s <= 1_000_000,
        s % 2 == 0,
    ensures
        v.len() == n * n,
        forall|idx: int| 0 <= idx < v.len() ==> v[idx] == instance_at(n, s, policy, idx),
{
    let mut v: Vec<InstanceDesc> = Vec::new();
    proof {
        assert(n * s <= 1_000_000_000) by (nonlinear_arith)
            requires
                n <= 1000,
                0 < s <= 1_000_000,
        ;
    }
    let half: i64 = (n as i64) * s / 2;
    let mut z: u32 = 0;
    while z < n
        invariant
            z <= n,
            n <= 1000,
            0 < s <= 1_000_000,
            s % 2 == 0,
            half == (n * s) / 2,
            v.len() == z * n,
            forall|idx: int| 0 <= idx < v.len() ==> v[idx] == instance_at(n, s, policy, idx),
        decreases n - z,
    {
        let mut x: u32 = 0;
        while x < n
            invariant
                z < n,
                x <= n,
                n <= 1000,
                0 < s <= 1_000_000,
                s % 2 == 0,
                half == (n * s) / 2,
                v.len() == z * n + x,
                forall|idx: int| 0 <= idx < v.len() ==> v[idx] == instance_at(n, s, policy, idx),
            decreases n - x,
        {
            proof {
                assert(x * s <= n * s && z * s <= n * s && n * s <= 1_000_000_000)
                    by (nonlinear_arith)
                    requires
                        x <= n,
                        z <= n,
                        n <= 1000,
                        0 < s <= 1_000_000,
                ;
            }
            let px: i64 = (x as i64) * s - half;
            let pz: i64 = (z as i64) * s - half;
            let p = Vec3 { x: px, y: 0, z: pz };
            let rotation = match policy {
                RotationPolicy::Grid => Rotation::Identity,
                RotationPolicy::TiltedGrid => {
                    if p.is_zero() {
                        Rotation::Identity
                    } else {
                        Rotation::AxisAngleMdeg { axis: p, angle_mdeg: 45 * crate::UNIT }
                    }
                },
            };
            let inst = InstanceDesc { position: p, rotation };
            proof {
                let idx = z * n + x;
                vstd::arithmetic::div_mod::lemma_fundamental_div_mod_converse(
                    idx as int,
                    n as int,
                    z as int,
                    x as int,
                );
                assert(inst == instance_at(n, s, policy, idx as int));
            }
            v.push(inst);
            x = x + 1;
        }
        z = z + 1;
        proof {
            assert((z - 1) * n + n == z * n) by (nonlinear_arith);
        }
    }
    v
}

/// The lattice is regular: along a row, neighbouring instances stand
/// exactly one spacing apart.
pub proof fn lemma_grid_spacing(n: u32, s: i64, i: int)
    ensures
        lattice_coord(n, s, i + 1) - lattice_coord(n, s, i) == s,
{
    assert((i + 1) * s == i * s + s) by (nonlinear_arith);
}

/// The lattice is centered: coordinates come in pairs mirrored about
/// `-s / 2`, the grid's midpoint after the half-extent shift.
pub proof fn lemma_grid_centering(n: u32, s: i64, i: int)
    requires
        (n * s) % 2 == 0,
    ensures
        lattice_coord(n, s, i) + lattice_coord(n, s, n - 1 - i) == -s,
{
    assert(i * s + (n - 1 - i) * s == n * s - s) by (nonlinear_arith);
    assert((n * s) / 2 + (n * s) / 2 == n * s) by {
        vstd::arithmetic::div_mod::lemma_fundamental_div_mod(n as int * s as int, 2);
    }
}

/// Flattens an unturned instance for the GPU: composing its translation
/// with the identity rotation yields exactly the translation matrix of
/// its position.
pub fn to_raw_identity(inst: &InstanceDesc) -> (m: Mat4)
    requires
        inst.position.in_range(),
        inst.rotation is Identity,
    ensures
        forall|i: int| 0 <= i < 16 ==> m@[i] == translation_entry(inst.position, i),
{
    let rot = identity_matrix();
    proof {
        assert forall|i: int| 0 <= i < 16 implies -COORD_BOUND <= #[trigger] rot@[i]
            <= COORD_BOUND by {
            assert(rot@[i] == identity_entry(i));
        }
    }
    let m = model_matrix(&inst.position, &rot);
    proof {
        let rotv = rot@.map_values(|v: i64| v as int);
        assert forall|i: int| 0 <= i < 16 implies m@[i] == translation_entry(inst.position, i) by {
            assert(m@[i] == model_matrix_entry(inst.position, rotv, i));
            assert(rotv[i] == rot@[i]);
            assert(rot@[i] == identity_entry(i));
        }
    }
    m
}

/// Flattens a whole list of unturned instances into the matrix array
/// that is uploaded once as the instance buffer: one translation matrix
/// per instance, in instance order.
pub fn to_raw_all_identity(instances: &Vec<InstanceDesc>) -> (raws: Vec<Mat4>)
    requires
        forall|idx: int| 0 <= idx < instances.len() ==> {
            &&& (#[trigger] instances[idx]).position.in_range()
            &&& instances[idx].rotation is Identity
        },
    ensures
        raws.len() == instances.len(),
        forall|idx: int, i: int|
            0 <= idx < raws.len() && 0 <= i < 16 ==> #[trigger] raws[idx]@[i]
                == translation_entry(instances[idx].position, i),
{
    let mut raws: Vec<Mat4> = Vec::new();
    let n = instances.len();
    let mut k: usize = 0;
    while k < n
        invariant
            0 <= k <= n,
            n == instances.len(),
            raws.len() == k,
            forall|idx: int| 0 <= idx < n ==> {
                &&& (#[trigger] instances[idx]).position.in_range()
                &&& instances[idx].rotation is Identity
            },
            forall|idx: int, i: int|
                0 <= idx < k && 0 <= i < 16 ==> #[trigger] raws[idx]@[i]
                    == translation_entry(instances[idx].position, i),
        decreases n - k,
    {
        let raw = to_raw_identity(&instances[k]);
        raws.push(raw);
        k = k + 1;
    }
    raws
}

/// Flattening is a pure function of the instance: two instances with the
/// same position and rotation flatten to the same matrix, entry by entry.
pub proof fn lemma_to_raw_pure(a: InstanceDesc, b: InstanceDesc, rot: Seq<int>)
    requires
        a == b,
    ensures
        forall|i: int|
            0 <= i < 16 ==> model_matrix_entry(a.position, rot, i) == model_matrix_entry(
                b.position,
                rot,
                i,
            ),
{
}

} // verus!
