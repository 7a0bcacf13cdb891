//! The camera's parameters and the GPU-visible uniform derived from them.
//!
//! The camera is described exactly: points in thousandths of a unit,
//! the field of view in thousandths of a degree, the aspect ratio as the
//! surface's width and height. A camera is well formed when its view
//! matrix cannot degenerate: the eye and the target differ, and the up
//! vector is not parallel to the viewing direction.

use vstd::prelude::*;
use crate::geom::{Mat4, Vec3};

verus! {

/// Entry `i` of the clip-space correction matrix: the identity except
/// that the third output row becomes `z / 2 + w / 2`, mapping a depth
/// range of minus one to one onto zero to one and leaving x and y
/// unchanged. Column-major, like every matrix here: the halves sit in
/// rows 2 of columns 2 and 3.
pub open spec fn correction_entry(i: int) -> int {
    if i == 0 || i == 5 || i == 15 {
        crate::UNIT as int
    } else if i == 10 || i == 14 {
        (crate::UNIT / 2) as int
    } else {
        0
    }
}

/// The fixed matrix that adapts a projection built for a depth range of
/// minus one to one to an API expecting zero to one, by pre-multiplying
/// the view-projection.
pub fn correction_matrix() -> (m: Mat4)
    ensures
        forall|i: int| 0 <= i < 16 ==> m@[i] == correction_entry(i),
{
    let half: i64 = crate::UNIT / 2;
    let m: Mat4 = [
        crate::UNIT, 0, 0, 0,
        0, crate::UNIT, 0, 0,
        0, 0, half, 0,
        0, 0, half, crate::UNIT,
    ];
    proof {
        assert(m@ =~= seq![
            crate::UNIT, 0i64, 0i64, 0i64,
            0i64, crate::UNIT, 0i64, 0i64,
            0i64, 0i64, half, 0i64,
            0i64, 0i64, half, crate::UNIT,
        ]);
    }
    m
}

/// Whether the cross product of `a` and `b` vanishes, that is, whether
/// the two vectors are parallel or one of them is zero.
pub open spec fn cross_vanishes(a: Vec3, b: Vec3) -> bool {
    &&& a.y * b.z - a.z * b.y == 0
    &&& a.z * b.x - a.x * b.z == 0
    &&& a.x * b.y - a.y * b.x == 0
}

/// A perspective camera over exact coordinates.
///
/// `fovy_mdeg` is the vertical field of view in thousandths of a degree;
/// `znear` and `zfar` are clip distances in thousandths of a unit; the
/// aspect ratio is `aspect_w / aspect_h`, the surface dimensions in pixels.
#[derive(Clone, Copy, Debug, PartialEq, Eq, Structural)]
pub struct Camera {
    pub eye: Vec3,
    pub target: Vec3,
    pub up: Vec3,
    pub aspect_w: u32,
    pub aspect_h: u32,
    pub fovy_mdeg: i64,
    pub znear: i64,
    pub zfar: i64,
}

impl Camera {
    /// Well-formedness: the look-at matrix and the projection are both
    /// non-degenerate. The eye and target differ, the up vector is not
    /// parallel to the viewing direction, the clip range is positive and
    /// properly ordered, the surface has area, and the field of view is a
    /// proper angle.
    pub open spec fn wf(self) -> bool {
        &&& self.eye.in_range()
        &&& self.target.in_range()
        &&& self.up.in_range()
        &&& self.eye != self.target
        &&& !cross_vanishes(
            self.up,
            Vec3 {
                x: (self.target.x - self.eye.x) as i64,
                y: (self.target.y - self.eye.y) as i64,
                z: (self.target.z - self.eye.z) as i64,
            },
        )
        &&& 0 < self.znear < self.zfar
        &&& self.aspect_w > 0
        &&& self.aspect_h > 0
        &&& 0 < self.fovy_mdeg < 180 * crate::UNIT
    }

    /// Builds a camera from its parts.
    ///
    /// The arguments must describe a non-degenerate camera; the view
    /// matrix of a camera whose up vector is parallel to the viewing
    /// direction, or whose eye equals its target, is undefined.
    pub fn new(
        eye: Vec3,
        target: Vec3,
        up: Vec3,
        aspect_w: u32,
        aspect_h: u32,
        fovy_mdeg: i64,
        znear: i64,
        zfar: i64,
    ) -> (c: Camera)
        requires
            eye.in_range(),
            target.in_range(),
            up.in_range(),
            eye != target,
            !cross_vanishes(
                up,
                Vec3 {
                    x: (target.x - eye.x) as i64,
                    y: (target.y - eye.y) as i64,
                    z: (target.z - eye.z) as i64,
                },
            ),
            0 < znear < zfar,
            aspect_w > 0,
            aspect_h > 0,
            0 < fovy_mdeg < 180 * crate::UNIT,
        ensures
            c == (Camera { eye, target, up, aspect_w, aspect_h, fovy_mdeg, znear, zfar }),
            c.wf(),
    {
        Camera { eye, target, up, aspect_w, aspect_h, fovy_mdeg, znear, zfar }
    }

    /// Points the aspect ratio at a new surface size.
    pub fn set_aspect(&mut self, width: u32, height: u32)
        requires
            old(self).wf(),
            width > 0,
            height > 0,
        ensures
            *final(self) == (Camera { aspect_w: width, aspect_h: height, ..*old(self) }),
            final(self).wf(),
    {
        self.aspect_w = width;
        self.aspect_h = height;
    }
}

/// The camera the scene starts with: five units above and ten behind the
/// origin, looking at the origin with the world's up, a 45-degree field of
/// view, and a clip range from a tenth of a unit to a hundred units.
pub fn create_camera(width: u32, height: u32) -> (c: Camera)
    requires
        width > 0,
        height > 0,
    ensures
        c.eye.x == 0 && c.eye.y == 5 * crate::UNIT && c.eye.z == -10 * crate::UNIT,
        c.target == Vec3::spec_zero(),
        c.up.x == 0 && c.up.y == crate::UNIT && c.up.z == 0,
        c.aspect_w == width,
        c.aspect_h == height,
        c.fovy_mdeg == 45 * crate::UNIT,
        c.znear == crate::UNIT / 10,
        c.zfar == 100 * crate::UNIT,
        c.wf(),
{
    Camera::new(
        Vec3 { x: 0, y: 5 * crate::UNIT, z: -10 * crate::UNIT },
        Vec3 { x: 0, y: 0, z: 0 },
        Vec3 { x: 0, y: crate::UNIT, z: 0 },
        width,
        height,
        45 * crate::UNIT,
        crate::UNIT / 10,
        100 * crate::UNIT,
    )
}

/// The GPU-visible mirror of the camera: the eye position written
/// homogeneously, and the camera whose view-projection matrix the GPU
/// block currently holds.
///
/// The numeric matrix itself lives outside this model; what the model
/// pins down is staleness: after `update_view_proj(c)` the uniform
/// depends on `c` alone, whatever it held before.
#[derive(Clone, Copy, Debug, PartialEq)]
pub struct CameraUniform {
    /// Last homogeneous eye position written, `(x, y, z, 1)` scaled by
    /// [`crate::UNIT`]; zero before the first update.
    pub view_position: [i64; 4],
    /// The camera the stored view-projection was computed from; `None`
    /// until the first update, when the block holds the identity matrix.
    pub source: Option<Camera>,
}

/// The uniform contents that `update_view_proj` leaves behind for a
/// camera `c`: a pure function of `c`, independent of the prior contents.
pub open spec fn uniform_of(c: Camera) -> CameraUniform {
    CameraUniform {
        view_position: [c.eye.x, c.eye.y, c.eye.z, crate::UNIT],
        source: Some(c),
    }
}

impl CameraUniform {
    /// A fresh uniform: zero eye position and the identity matrix,
    /// derived from no camera yet.
    pub fn new() -> (u: CameraUniform)
        ensures
            u.view_position@ == seq![0i64, 0i64, 0i64, 0i64],
            u.source is None,
    {
        let u = CameraUniform { view_position: [0, 0, 0, 0], source: None };
        proof {
            assert(u.view_position@ =~= seq![0i64, 0i64, 0i64, 0i64]);
        }
        u
    }

    /// Recomputes the stored view-projection and eye position from the
    /// camera, synchronously. The result is a pure function of the
    /// camera: nothing of the previous contents survives.
    pub fn update_view_proj(&mut self, camera: &Camera)
        requires
            camera.wf(),
        ensures
            *final(self) == uniform_of(*camera),
    {
        self.view_position = [camera.eye.x, camera.eye.y, camera.eye.z, crate::UNIT];
        self.source = Some(*camera);
        proof {
            assert(self.view_position =~= uniform_of(*camera).view_position);
        }
    }
}

/// What `update_view_proj` turns a uniform holding `u` into when handed
/// the camera `c`: the prior contents are ignored entirely.
pub open spec fn spec_updated(u: CameraUniform, c: Camera) -> CameraUniform {
    uniform_of(c)
}

/// Updating the uniform is idempotent: a second update from an unchanged
/// camera leaves exactly the contents the first one wrote, whatever the
/// uniform held before either call.
pub proof fn lemma_update_view_proj_idempotent(u: CameraUniform, c: Camera)
    ensures
        spec_updated(spec_updated(u, c), c) == spec_updated(u, c),
{
}

} // verus!
