//! Axis-aligned rectangle geometry.
//!
//! Coordinates are fixed-point: every `SCALE` subunits make one pixel of the
//! render backend. All derived operations are pure functions returning new
//! values.

use vstd::prelude::*;

verus! {

/// Subunits per pixel of the render backend.
pub const SCALE: i64 = 1000;

/// Largest magnitude any rectangle coordinate or extent may have; keeps all
/// of the arithmetic below well inside `i64` and the pixel form inside `i32`.
pub const COORD_LIMIT: i64 = 1_000_000_000_000;

/// An axis-aligned rectangle in fixed-point subunits.
/// Invariant (`well_formed`): width and height are never negative.
#[derive(Clone, Copy, Debug, PartialEq, Eq, Structural)]
pub struct Rectangle {
    pub x: i64,
    pub y: i64,
    pub w: i64,
    pub h: i64,
}

/// The whole-pixel rectangle form that the render backend consumes.
#[derive(Clone, Copy, Debug, PartialEq, Eq, Structural)]
pub struct DrawRect {
    pub x: i32,
    pub y: i32,
    pub w: u32,
    pub h: u32,
}

/// `v` pinned into the closed interval `[lo, hi]` (meaningful when `lo <= hi`).
pub open spec fn clamp_coord(v: int, lo: int, hi: int) -> int {
    if v < lo {
        lo
    } else if v > hi {
        hi
    } else {
        v
    }
}

/// Subunits to whole pixels, truncating toward zero.
pub open spec fn to_pixel(v: int) -> int {
    if v >= 0 {
        v / (SCALE as int)
    } else {
        -((-v) / (SCALE as int))
    }
}

impl Rectangle {
    /// Width and height are non-negative.
    pub open spec fn well_formed(self) -> bool {
        self.w >= 0 && self.h >= 0
    }

    /// Every field stays within `COORD_LIMIT`, so sums of two coordinates
    /// cannot overflow `i64`.
    pub open spec fn in_coord_range(self) -> bool {
        &&& -COORD_LIMIT <= self.x <= COORD_LIMIT
        &&& -COORD_LIMIT <= self.y <= COORD_LIMIT
        &&& self.w <= COORD_LIMIT
        &&& self.h <= COORD_LIMIT
    }

    /// `self` is small enough to fit somewhere inside `parent`.
    pub open spec fn fits_within(self, parent: Rectangle) -> bool {
        self.w <= parent.w && self.h <= parent.h
    }

    /// `self` lies fully inside `parent` on both axes.
    pub open spec fn contained_in(self, parent: Rectangle) -> bool {
        &&& parent.x <= self.x
        &&& self.x + self.w <= parent.x + parent.w
        &&& parent.y <= self.y
        &&& self.y + self.h <= parent.y + parent.h
    }

    /// The rectangle of the same size repositioned so that it lies fully
    /// inside `parent`, each axis treated independently.
    pub open spec fn clamped_inside(self, parent: Rectangle) -> Rectangle {
        Rectangle {
            x: clamp_coord(self.x as int, parent.x as int, parent.x + parent.w - self.w) as i64,
            y: clamp_coord(self.y as int, parent.y as int, parent.y + parent.h - self.h) as i64,
            w: self.w,
            h: self.h,
        }
    }

    /// The pixel form of this rectangle, truncating each field toward zero.
    pub open spec fn to_draw_rect(self) -> DrawRect {
        DrawRect {
            x: to_pixel(self.x as int) as i32,
            y: to_pixel(self.y as int) as i32,
            w: to_pixel(self.w as int) as u32,
            h: to_pixel(self.h as int) as u32,
        }
    }

    /// Repositions `self` so it lies fully within `parent` on each axis
    /// independently: an axis that already fits is left unchanged, one that
    /// overflows low is pinned to `parent`'s near edge, one that overflows
    /// high is pinned so the far edges align. Returns `None` exactly when
    /// `self` cannot fit inside `parent` regardless of position.
    pub fn move_inside(self, parent: Rectangle) -> (r: Option<Rectangle>)
        requires
            self.well_formed(),
            parent.well_formed(),
            self.in_coord_range(),
            parent.in_coord_range(),
        ensures
            r is Some <==> self.fits_within(parent),
            r matches Some(rect) ==> rect == self.clamped_inside(parent),
            r matches Some(rect) ==> rect.contained_in(parent),
            self.fits_within(parent) && self.contained_in(parent) ==> r == Some(self),
    {
        if self.w > parent.w || self.h > parent.h {
            return None;
        }
        Some(
            Rectangle {
                w: self.w,
                h: self.h,
                x: if self.x < parent.x {
                    parent.x
                } else if self.x + self.w >= parent.x + parent.w {
                    parent.x + parent.w - self.w
                } else {
                    self.x
                },
                y: if self.y < parent.y {
                    parent.y
                } else if self.y + self.h >= parent.y + parent.h {
                    parent.y + parent.h - self.h
                } else {
                    self.y
                },
            },
        )
    }

    /// Converts to the whole-pixel form required by the render backend,
    /// truncating toward zero. Negative width or height is a contract
    /// violation, ruled out by `well_formed`.
    pub fn to_sdl(self) -> (r: DrawRect)
        requires
            self.well_formed(),
            self.in_coord_range(),
        ensures
            r == self.to_draw_rect(),
    {
        DrawRect {
            x: div_scale_toward_zero(self.x) as i32,
            y: div_scale_toward_zero(self.y) as i32,
            w: div_scale_toward_zero(self.w) as u32,
            h: div_scale_toward_zero(self.h) as u32,
        }
    }
}

/// Truncating (toward zero) division of a subunit coordinate by `SCALE`.
fn div_scale_toward_zero(v: i64) -> (p: i64)
    requires
        -COORD_LIMIT <= v <= COORD_LIMIT,
    ensures
        p == to_pixel(v as int),
        -((COORD_LIMIT as int) / (SCALE as int)) <= p <= (COORD_LIMIT as int) / (SCALE as int),
{
    if v >= 0 {
        (v as u64 / (SCALE as u64)) as i64
    } else {
        -(((-v) as u64 / (SCALE as u64)) as i64)
    }
}

/// Clamping a rectangle inside a container it fits in is idempotent: the
/// result of one clamp is already contained, so a second clamp returns it
/// unchanged.
pub proof fn lemma_clamp_idempotent(r: Rectangle, c: Rectangle)
    requires
        r.well_formed(),
        c.well_formed(),
        r.fits_within(c),
        r.in_coord_range(),
        c.in_coord_range(),
    ensures
        r.clamped_inside(c).clamped_inside(c) == r.clamped_inside(c),
{
}

/// A rectangle exactly as wide as its container is always pinned to the
/// container's near edge on that axis: the admissible range
/// `[c.x, c.x + c.w - r.w]` collapses to the single point `c.x`.
pub proof fn lemma_flush_width_pins_x(r: Rectangle, c: Rectangle)
    requires
        r.well_formed(),
        c.well_formed(),
        r.fits_within(c),
        r.in_coord_range(),
        c.in_coord_range(),
        r.w == c.w,
    ensures
        r.clamped_inside(c).x == c.x,
        c.x <= r.clamped_inside(c).x <= c.x + c.w - r.w,
{
}

} // verus!
