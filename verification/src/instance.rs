//! Per-entity sprite draw parameters and the per-instance vertex expansion:
//! the quad corner and atlas texture coordinate each instance assigns to a
//! unit-quad corner, over exact integer pixel arithmetic.

use crate::geometry::quad_corner_spec;
use vstd::prelude::*;

verus! {

/// Bound on every pixel coordinate the geometry computations touch; it keeps
/// all corner and texel arithmetic comfortably inside `i64`.
pub const MAX_COORD: i64 = 1073741824;

/// `(2c - 1) * d` for a unit-quad corner coordinate `c` in {0, 1}: the
/// signed half-extent a corner adds to a doubled centre coordinate.
pub open spec fn signed_extent(c: int, d: int) -> int {
    if c == 1 {
        d
    } else {
        -d
    }
}

/// `c * d` for a unit-quad corner coordinate `c` in {0, 1}.
pub open spec fn corner_extent(c: int, d: int) -> int {
    if c == 1 {
        d
    } else {
        0
    }
}

/// Per-entity draw parameters for one sprite quad, rebuilt every frame from
/// the renderable snapshot and never persisted across frames.
///
/// Positions and dimensions are in integer pixel space. The facing components
/// describe the unit vector the quad's local "up" axis is rotated onto, in
/// whatever fixed-point scale the caller uses; they are carried through to
/// the draw unchanged, and a non-unit facing gives an undefined orientation
/// (callers normalize upstream).
#[derive(Clone, Copy, Debug, PartialEq, Eq, Structural)]
pub struct SpriteInstance {
    /// Centre of the quad, pixel space.
    pub centre_x: i64,
    /// Centre of the quad, pixel space.
    pub centre_y: i64,
    /// Bounding width in pixels.
    pub dim_x: i64,
    /// Bounding height in pixels.
    pub dim_y: i64,
    /// Facing unit-vector component, caller's fixed-point scale.
    pub facing_x: i64,
    /// Facing unit-vector component, caller's fixed-point scale.
    pub facing_y: i64,
    /// Top-left corner of the atlas sub-rectangle, atlas pixels.
    pub sprite_left: i64,
    /// Top-left corner of the atlas sub-rectangle, atlas pixels.
    pub sprite_top: i64,
    /// Width of the atlas sub-rectangle, atlas pixels.
    pub sprite_w: i64,
    /// Height of the atlas sub-rectangle, atlas pixels.
    pub sprite_h: i64,
}

impl SpriteInstance {
    /// Geometric well-formedness: coordinates bounded, dimensions and atlas
    /// sub-rectangle non-negative.
    pub open spec fn wf(&self) -> bool {
        &&& -MAX_COORD <= self.centre_x <= MAX_COORD
        &&& -MAX_COORD <= self.centre_y <= MAX_COORD
        &&& 0 <= self.dim_x <= MAX_COORD
        &&& 0 <= self.dim_y <= MAX_COORD
        &&& 0 <= self.sprite_left <= MAX_COORD
        &&& 0 <= self.sprite_top <= MAX_COORD
        &&& 0 <= self.sprite_w <= MAX_COORD
        &&& 0 <= self.sprite_h <= MAX_COORD
    }

    /// The all-zero record, as a specification value.
    pub open spec fn zero_spec() -> SpriteInstance {
        SpriteInstance {
            centre_x: 0i64,
            centre_y: 0i64,
            dim_x: 0i64,
            dim_y: 0i64,
            facing_x: 0i64,
            facing_y: 0i64,
            sprite_left: 0i64,
            sprite_top: 0i64,
            sprite_w: 0i64,
            sprite_h: 0i64,
        }
    }

    /// The all-zero record the instance buffers are initially filled with.
    pub fn zeroed() -> (r: SpriteInstance)
        ensures
            r == SpriteInstance::zero_spec(),
            r.wf(),
    {
        SpriteInstance {
            centre_x: 0,
            centre_y: 0,
            dim_x: 0,
            dim_y: 0,
            facing_x: 0,
            facing_y: 0,
            sprite_left: 0,
            sprite_top: 0,
            sprite_w: 0,
            sprite_h: 0,
        }
    }

    /// The expanded quad corner `i` before any rotation, in doubled pixel
    /// coordinates so that half-pixel corners stay exact:
    /// twice `centre + (corner - 1/2) * dimensions`.
    pub open spec fn corner_x2_spec(&self, i: int) -> (int, int) {
        let c = quad_corner_spec(i);
        (
            2 * self.centre_x + signed_extent(c.0, self.dim_x as int),
            2 * self.centre_y + signed_extent(c.1, self.dim_y as int),
        )
    }

    /// The instance's atlas texture coordinate for corner `i`, in atlas
    /// pixels: the sub-rectangle's top-left plus corner × sub-rectangle
    /// dimensions. It depends only on the sub-rectangle, never on the total
    /// atlas size.
    pub open spec fn texel_spec(&self, i: int) -> (int, int) {
        let c = quad_corner_spec(i);
        (
            self.sprite_left + corner_extent(c.0, self.sprite_w as int),
            self.sprite_top + corner_extent(c.1, self.sprite_h as int),
        )
    }

    /// Expanded quad corner `i` in doubled pixel coordinates.
    pub fn corner_x2(&self, i: usize) -> (r: (i64, i64))
        requires
            i < 4,
            self.wf(),
        ensures
            r.0 == self.corner_x2_spec(i as int).0,
            r.1 == self.corner_x2_spec(i as int).1,
    {
        if i == 0 {
            (2 * self.centre_x - self.dim_x, 2 * self.centre_y - self.dim_y)
        } else if i == 1 {
            (2 * self.centre_x - self.dim_x, 2 * self.centre_y + self.dim_y)
        } else if i == 2 {
            (2 * self.centre_x + self.dim_x, 2 * self.centre_y + self.dim_y)
        } else {
            (2 * self.centre_x + self.dim_x, 2 * self.centre_y - self.dim_y)
        }
    }

    /// Expanded quad corner `i` in whole pixels, for instances whose
    /// dimensions are even (odd dimensions put corners on half pixels, which
    /// whole-pixel coordinates cannot carry).
    pub fn corner_px(&self, i: usize) -> (r: (i64, i64))
        requires
            i < 4,
            self.wf(),
            self.dim_x % 2 == 0,
            self.dim_y % 2 == 0,
        ensures
            2 * r.0 == self.corner_x2_spec(i as int).0,
            2 * r.1 == self.corner_x2_spec(i as int).1,
    {
        let hx = self.dim_x / 2;
        let hy = self.dim_y / 2;
        if i == 0 {
            (self.centre_x - hx, self.centre_y - hy)
        } else if i == 1 {
            (self.centre_x - hx, self.centre_y + hy)
        } else if i == 2 {
            (self.centre_x + hx, self.centre_y + hy)
        } else {
            (self.centre_x + hx, self.centre_y - hy)
        }
    }

    /// Atlas texture coordinate of corner `i`, in atlas pixels.
    pub fn texel(&self, i: usize) -> (r: (i64, i64))
        requires
            i < 4,
            self.wf(),
        ensures
            r.0 == self.texel_spec(i as int).0,
            r.1 == self.texel_spec(i as int).1,
    {
        if i == 0 {
            (self.sprite_left, self.sprite_top)
        } else if i == 1 {
            (self.sprite_left, self.sprite_top + self.sprite_h)
        } else if i == 2 {
            (self.sprite_left + self.sprite_w, self.sprite_top + self.sprite_h)
        } else {
            (self.sprite_left + self.sprite_w, self.sprite_top)
        }
    }
}

/// A texture coordinate in atlas-normalized UV space, kept as an exact
/// rational: the normalized value is `num / den` on each axis, with the
/// denominator the atlas dimension.
#[derive(Clone, Copy, Debug, PartialEq, Eq, Structural)]
pub struct UvCoord {
    /// Numerator of the U coordinate, in atlas pixels.
    pub u_num: i64,
    /// Denominator of the U coordinate: the atlas width.
    pub u_den: i64,
    /// Numerator of the V coordinate, in atlas pixels.
    pub v_num: i64,
    /// Denominator of the V coordinate: the atlas height.
    pub v_den: i64,
}

impl SpriteInstance {
    /// Corner `i`'s texture coordinate in atlas-normalized UV space, exact:
    /// the numerators are the texel — so scaling the normalized coordinate
    /// back by the atlas size always lands on the instance's sub-rectangle,
    /// whatever the atlas's total size is.
    pub fn atlas_uv(&self, i: usize, atlas_w: i64, atlas_h: i64) -> (r: UvCoord)
        requires
            i < 4,
            self.wf(),
            1 <= atlas_w,
            1 <= atlas_h,
        ensures
            r.u_num == self.texel_spec(i as int).0,
            r.v_num == self.texel_spec(i as int).1,
            r.u_den == atlas_w,
            r.v_den == atlas_h,
    {
        let t = self.texel(i);
        UvCoord { u_num: t.0, u_den: atlas_w, v_num: t.1, v_den: atlas_h }
    }
}

} // verus!
