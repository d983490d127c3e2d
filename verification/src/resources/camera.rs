//! Camera state and navigation.
//!
//! The camera keeps its position, orientation and projection
//! parameters in the fixed-point scale of [`crate::fixed`]. Yaw and
//! pitch are angles in `[0, TURN)`; the local walking axes are derived
//! from them through the triangle-wave trigonometry, so every mutation
//! is exact integer arithmetic. Rotation is unclamped on both axes:
//! repeated upward rotation wraps the pitch through the pole, which is
//! the chosen policy for full rotational freedom. The view-projection
//! matrix the GPU consumes is built outside the verified core from the
//! fields this type maintains.

use vstd::prelude::*;
use crate::fixed::{
    abs_fx, clamp_pos, clamp_pos_fx, mul_scale, mul_scale_fx, tri_cos, tri_cos_fx, tri_sin,
    tri_sin_fx, wrap_turn, wrap_turn_add, POS_LIMIT, STEP_LIMIT, TURN, UNIT,
};

verus! {

/// A fixed-point vector: three coordinates scaled by [`UNIT`].
#[derive(Debug, Clone, Copy, PartialEq, Eq, Structural)]
pub struct Vec3Fx {
    pub x: i64,
    pub y: i64,
    pub z: i64,
}

/// The angle in `[0, TURN)` whose triangle sine and cosine point from
/// the origin toward `(x, y)`, measured on the unit diamond
/// `|x| + |y| = UNIT`. The quadrant is picked from the signs and the
/// offset inside it from the proportion `|y| / (|x| + |y|)`, rounding
/// toward zero; the origin itself maps to angle 0.
pub open spec fn pseudo_angle(y: int, x: int) -> int {
    let m = abs_fx(x) + abs_fx(y);
    if m == 0 {
        0
    } else {
        let t = abs_fx(y) * UNIT / m;
        if y >= 0 && x >= 0 {
            t
        } else if x < 0 && y >= 0 {
            2 * UNIT - t
        } else if x < 0 {
            2 * UNIT + t
        } else if t == 0 {
            0
        } else {
            4 * UNIT - t
        }
    }
}

/// Forward-axis components for a given yaw and pitch. Yaw 0, pitch 0
/// looks along negative z; yaw turns toward positive x, pitch lifts
/// toward positive y.
pub open spec fn fwd_x(yaw: int, pitch: int) -> int {
    mul_scale(tri_sin(yaw), tri_cos(pitch))
}

pub open spec fn fwd_y(pitch: int) -> int {
    tri_sin(pitch)
}

pub open spec fn fwd_z(yaw: int, pitch: int) -> int {
    -mul_scale(tri_cos(yaw), tri_cos(pitch))
}

/// Right-axis components: horizontal, a quarter turn from the yaw.
pub open spec fn right_x(yaw: int) -> int {
    tri_cos(yaw)
}

pub open spec fn right_z(yaw: int) -> int {
    tri_sin(yaw)
}

/// Up-axis components: the cross product of right and forward,
/// scaled back to unit magnitude.
pub open spec fn up_x(yaw: int, pitch: int) -> int {
    -mul_scale(right_z(yaw), fwd_y(pitch))
}

pub open spec fn up_y(yaw: int, pitch: int) -> int {
    mul_scale(right_z(yaw), fwd_x(yaw, pitch)) - mul_scale(right_x(yaw), fwd_z(yaw, pitch))
}

pub open spec fn up_z(yaw: int, pitch: int) -> int {
    mul_scale(right_x(yaw), fwd_y(pitch))
}

/// The camera after walking `v` along its forward axis: each
/// coordinate gains `v` scaled by the axis component, clamped at the
/// world bound; nothing else moves.
pub open spec fn walked_forward(c: Camera, v: int) -> Camera {
    Camera {
        position: Vec3Fx {
            x: clamp_pos(c.position.x + mul_scale(v, fwd_x(c.yaw as int, c.pitch as int))) as i64,
            y: clamp_pos(c.position.y + mul_scale(v, fwd_y(c.pitch as int))) as i64,
            z: clamp_pos(c.position.z + mul_scale(v, fwd_z(c.yaw as int, c.pitch as int))) as i64,
        },
        ..c
    }
}

/// The camera after walking `v` along its right axis; the height
/// never changes.
pub open spec fn walked_right(c: Camera, v: int) -> Camera {
    Camera {
        position: Vec3Fx {
            x: clamp_pos(c.position.x + mul_scale(v, right_x(c.yaw as int))) as i64,
            y: c.position.y,
            z: clamp_pos(c.position.z + mul_scale(v, right_z(c.yaw as int))) as i64,
        },
        ..c
    }
}

/// The camera after moving `v` along its up axis.
pub open spec fn levitated_up(c: Camera, v: int) -> Camera {
    Camera {
        position: Vec3Fx {
            x: clamp_pos(c.position.x + mul_scale(v, up_x(c.yaw as int, c.pitch as int))) as i64,
            y: clamp_pos(c.position.y + mul_scale(v, up_y(c.yaw as int, c.pitch as int))) as i64,
            z: clamp_pos(c.position.z + mul_scale(v, up_z(c.yaw as int, c.pitch as int))) as i64,
        },
        ..c
    }
}

/// The camera after a yaw rotation by `d`, wrapped into the period.
pub open spec fn rotated_right(c: Camera, d: int) -> Camera {
    Camera { yaw: wrap_turn(c.yaw + d) as i64, ..c }
}

/// The camera after a pitch rotation by `d`, wrapped and unclamped.
pub open spec fn rotated_up(c: Camera, d: int) -> Camera {
    Camera { pitch: wrap_turn(c.pitch + d) as i64, ..c }
}

/// View and projection state, mutated only by navigation commands and
/// viewport resizes.
pub struct Camera {
    pub position: Vec3Fx,
    pub yaw: i64,
    pub pitch: i64,
    pub width: u32,
    pub height: u32,
    pub fov_scale: i64,
    pub near: i64,
    pub far: i64,
}

impl Camera {
    /// Angles stay in their period and the position inside the world
    /// bound.
    pub open spec fn wf(self) -> bool {
        &&& 0 <= self.yaw < TURN
        &&& 0 <= self.pitch < TURN
        &&& -POS_LIMIT <= self.position.x <= POS_LIMIT
        &&& -POS_LIMIT <= self.position.y <= POS_LIMIT
        &&& -POS_LIMIT <= self.position.z <= POS_LIMIT
    }

    /// The orientation and projection parameters as a tuple, for
    /// stating that navigation leaves them untouched.
    pub open spec fn orientation(self) -> (int, int) {
        (self.yaw as int, self.pitch as int)
    }

    pub open spec fn projection(self) -> (int, int, int, int, int) {
        (self.width as int, self.height as int, self.fov_scale as int, self.near as int,
        self.far as int)
    }

    /// Builds a camera at `eye` oriented toward `target`, with the
    /// given viewport and projection parameters. The offset to the
    /// target is bounded so the angle derivation stays in range.
    pub fn look_at(
        eye: Vec3Fx,
        target: Vec3Fx,
        width: u32,
        height: u32,
        fov_scale: i64,
        near: i64,
        far: i64,
    ) -> (r: Camera)
        requires
            -POS_LIMIT <= eye.x <= POS_LIMIT,
            -POS_LIMIT <= eye.y <= POS_LIMIT,
            -POS_LIMIT <= eye.z <= POS_LIMIT,
            abs_fx(target.x - eye.x) <= STEP_LIMIT,
            abs_fx(target.y - eye.y) <= STEP_LIMIT,
            abs_fx(target.z - eye.z) <= STEP_LIMIT,
        ensures
            r.position == eye,
            r.yaw == pseudo_angle(target.x - eye.x, -(target.z - eye.z)),
            r.pitch == pseudo_angle(
                target.y - eye.y,
                abs_fx(target.x - eye.x) + abs_fx(target.z - eye.z),
            ),
            r.width == width,
            r.height == height,
            r.fov_scale == fov_scale,
            r.near == near,
            r.far == far,
            r.wf(),
    {
        let dx = target.x - eye.x;
        let dy = target.y - eye.y;
        let dz = target.z - eye.z;
        let yaw = pseudo_angle_fx(dx, -dz);
        let ax = if dx < 0 { -dx } else { dx };
        let az = if dz < 0 { -dz } else { dz };
        let pitch = pseudo_angle_fx(dy, ax + az);
        Camera { position: eye, yaw, pitch, width, height, fov_scale, near, far }
    }

    /// Recomputes the projection aspect for a new viewport. Position
    /// and orientation are untouched: only the aspect changes.
    pub fn resize(&mut self, width: u32, height: u32)
        ensures
            final(self).width == width,
            final(self).height == height,
            final(self).position == old(self).position,
            final(self).orientation() == old(self).orientation(),
            final(self).fov_scale == old(self).fov_scale,
            final(self).near == old(self).near,
            final(self).far == old(self).far,
            old(self).wf() ==> final(self).wf(),
    {
        self.width = width;
        self.height = height;
    }

    /// Moves the position by `v` along the current forward axis:
    /// each coordinate gains `v` scaled by its axis component, clamped
    /// at the world bound. Orientation and projection are untouched.
    pub fn walk_forward(&mut self, v: i64)
        requires
            old(self).wf(),
            -STEP_LIMIT <= v <= STEP_LIMIT,
        ensures
            final(self).wf(),
            *final(self) == walked_forward(*old(self), v as int),
            final(self).position.x == clamp_pos(
                old(self).position.x + mul_scale(v as int, fwd_x(old(self).yaw as int, old(self).pitch as int)),
            ),
            final(self).position.y == clamp_pos(
                old(self).position.y + mul_scale(v as int, fwd_y(old(self).pitch as int)),
            ),
            final(self).position.z == clamp_pos(
                old(self).position.z + mul_scale(v as int, fwd_z(old(self).yaw as int, old(self).pitch as int)),
            ),
            final(self).orientation() == old(self).orientation(),
            final(self).projection() == old(self).projection(),
    {
        let sy = tri_sin_fx(self.yaw);
        let cy = tri_cos_fx(self.yaw);
        let sp = tri_sin_fx(self.pitch);
        let cp = tri_cos_fx(self.pitch);
        let ax = mul_scale_fx(sy, cp);
        let az_pos = mul_scale_fx(cy, cp);
        self.position.x = clamp_pos_fx(self.position.x + mul_scale_fx(v, ax));
        self.position.y = clamp_pos_fx(self.position.y + mul_scale_fx(v, sp));
        self.position.z = clamp_pos_fx(self.position.z + mul_scale_fx(v, -az_pos));
    }

    /// Moves the position by `v` along the current right axis, which
    /// is horizontal; the height never changes.
    pub fn walk_right(&mut self, v: i64)
        requires
            old(self).wf(),
            -STEP_LIMIT <= v <= STEP_LIMIT,
        ensures
            final(self).wf(),
            *final(self) == walked_right(*old(self), v as int),
            final(self).position.x == clamp_pos(
                old(self).position.x + mul_scale(v as int, right_x(old(self).yaw as int)),
            ),
            final(self).position.y == old(self).position.y,
            final(self).position.z == clamp_pos(
                old(self).position.z + mul_scale(v as int, right_z(old(self).yaw as int)),
            ),
            final(self).orientation() == old(self).orientation(),
            final(self).projection() == old(self).projection(),
    {
        let cy = tri_cos_fx(self.yaw);
        let sy = tri_sin_fx(self.yaw);
        self.position.x = clamp_pos_fx(self.position.x + mul_scale_fx(v, cy));
        self.position.z = clamp_pos_fx(self.position.z + mul_scale_fx(v, sy));
    }

    /// Moves the position by `v` along the current up axis.
    pub fn levitate_up(&mut self, v: i64)
        requires
            old(self).wf(),
            -STEP_LIMIT <= v <= STEP_LIMIT,
        ensures
            final(self).wf(),
            *final(self) == levitated_up(*old(self), v as int),
            final(self).position.x == clamp_pos(
                old(self).position.x + mul_scale(v as int, up_x(old(self).yaw as int, old(self).pitch as int)),
            ),
            final(self).position.y == clamp_pos(
                old(self).position.y + mul_scale(v as int, up_y(old(self).yaw as int, old(self).pitch as int)),
            ),
            final(self).position.z == clamp_pos(
                old(self).position.z + mul_scale(v as int, up_z(old(self).yaw as int, old(self).pitch as int)),
            ),
            final(self).orientation() == old(self).orientation(),
            final(self).projection() == old(self).projection(),
    {
        let sy = tri_sin_fx(self.yaw);
        let cy = tri_cos_fx(self.yaw);
        let sp = tri_sin_fx(self.pitch);
        let cp = tri_cos_fx(self.pitch);
        let fx = mul_scale_fx(sy, cp);
        let fz = -mul_scale_fx(cy, cp);
        let ux = -mul_scale_fx(sy, sp);
        let uy = mul_scale_fx(sy, fx) - mul_scale_fx(cy, fz);
        let uz = mul_scale_fx(cy, sp);
        self.position.x = clamp_pos_fx(self.position.x + mul_scale_fx(v, ux));
        self.position.y = clamp_pos_fx(self.position.y + mul_scale_fx(v, uy));
        self.position.z = clamp_pos_fx(self.position.z + mul_scale_fx(v, uz));
    }

    /// Turns the view toward the right by `delta`, wrapping within the
    /// full rotation; no clamp is applied.
    pub fn rotate_right(&mut self, delta: i64)
        requires
            old(self).wf(),
            -TURN <= delta <= TURN,
        ensures
            final(self).wf(),
            *final(self) == rotated_right(*old(self), delta as int),
            final(self).yaw == wrap_turn(old(self).yaw + delta),
            final(self).pitch == old(self).pitch,
            final(self).position == old(self).position,
            final(self).projection() == old(self).projection(),
    {
        self.yaw = wrap_turn_add(self.yaw, delta);
    }

    /// Lifts the view by `delta`, wrapping within the full rotation;
    /// the pitch is unclamped, so the view can roll over the pole.
    pub fn rotate_up(&mut self, delta: i64)
        requires
            old(self).wf(),
            -TURN <= delta <= TURN,
        ensures
            final(self).wf(),
            *final(self) == rotated_up(*old(self), delta as int),
            final(self).pitch == wrap_turn(old(self).pitch + delta),
            final(self).yaw == old(self).yaw,
            final(self).position == old(self).position,
            final(self).projection() == old(self).projection(),
    {
        self.pitch = wrap_turn_add(self.pitch, delta);
    }
}

/// Executable form of [`pseudo_angle`], for offsets within twice the
/// step bound.
pub fn pseudo_angle_fx(y: i64, x: i64) -> (r: i64)
    requires
        abs_fx(y as int) <= 2 * STEP_LIMIT,
        abs_fx(x as int) <= 2 * STEP_LIMIT,
    ensures
        r == pseudo_angle(y as int, x as int),
        0 <= r < TURN,
{
    let ay: u64 = if y < 0 { (-y) as u64 } else { y as u64 };
    let ax: u64 = if x < 0 { (-x) as u64 } else { x as u64 };
    let m: u64 = ax + ay;
    if m == 0 {
        return 0;
    }
    proof {
        assert((ay as int) * (UNIT as int) <= (4 * STEP_LIMIT as int) * (UNIT as int))
            by (nonlinear_arith)
            requires
                0 <= ay as int <= 4 * STEP_LIMIT as int,
        ;
    }
    let t_u: u64 = ay * (UNIT as u64) / m;
    proof {
        assert((ay as int) * (UNIT as int) / (m as int) <= UNIT as int) by (nonlinear_arith)
            requires
                0 < m as int,
                0 <= ay as int <= m as int,
        ;
    }
    let t: i64 = t_u as i64;
    if y >= 0 && x >= 0 {
        t
    } else if x < 0 && y >= 0 {
        2 * UNIT - t
    } else if x < 0 {
        2 * UNIT + t
    } else if t == 0 {
        0
    } else {
        4 * UNIT - t
    }
}

} // verus!
