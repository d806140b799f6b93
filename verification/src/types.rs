//! Geometry primitives: axis-aligned rectangles and 2D integer vectors.
//!
//! A `Rect` stores its bottom-left corner together with a width and a
//! height; widths and heights are kept non-negative. A `Vec2` is a plain
//! integer vector. All scaling about a rectangle's center is expressed by
//! recomputing the rectangle from its own center and size, so that
//! center-based semantics are preserved exactly.

use vstd::prelude::*;

verus! {

/// True when a mathematical integer fits in `i32`.
pub open spec fn fits_i32(x: int) -> bool {
    i32::MIN <= x <= i32::MAX
}

/// Absolute value over mathematical integers.
pub open spec fn abs_int(a: int) -> int {
    if a >= 0 {
        a
    } else {
        -a
    }
}

/// Division that truncates toward zero, as the machine division does.
/// (Spec-mode `/` is Euclidean division, which differs on negative
/// operands.)
pub open spec fn div_trunc(a: int, b: int) -> int {
    if (a < 0) == (b < 0) {
        abs_int(a) / abs_int(b)
    } else {
        -(abs_int(a) / abs_int(b))
    }
}

/// Halve a non-negative value, truncating.
pub(crate) fn half(v: i32) -> (r: i32)
    requires
        v >= 0,
    ensures
        r == v as int / 2,
{
    ((v as u32) / 2) as i32
}

/// Quotient of a non-negative value by a positive value, truncating.
fn div_nonneg(a: i32, b: i32) -> (r: i32)
    requires
        a >= 0,
        b > 0,
    ensures
        r == a as int / b as int,
{
    ((a as u32) / (b as u32)) as i32
}

/// Machine division of `a` by `b`, truncating toward zero.
fn div_i32(a: i32, b: i32) -> (r: i32)
    requires
        b != 0,
        !(a == i32::MIN && b == -1),
    ensures
        r == div_trunc(a as int, b as int),
{
    let am: u32 = if a >= 0 {
        a as u32
    } else {
        (-(a as i64)) as u32
    };
    let bm: u32 = if b >= 0 {
        b as u32
    } else {
        (-(b as i64)) as u32
    };
    let q: u32 = am / bm;
    proof {
        vstd::arithmetic::div_mod::lemma_div_nonincreasing(am as int, bm as int);
    }
    if (a < 0) == (b < 0) {
        // Same signs give a non-negative quotient; it fits in `i32`
        // because a magnitude of 2^31 only arises for `i32::MIN`, whose
        // divisor then has magnitude at least 2.
        assert(q <= i32::MAX) by {
            if a == i32::MIN {
                assert(bm >= 2);
                vstd::arithmetic::div_mod::lemma_div_is_ordered_by_denominator(am as int, 2, bm as int);
            }
        };
        q as i32
    } else {
        (-(q as i64)) as i32
    }
}

/// A 2D integer vector, used for positions, offsets and sizes alike.
#[derive(Clone, Copy, Debug, PartialEq, Eq)]
pub struct Vec2 {
    pub x: i32,
    pub y: i32,
}

impl Default for Vec2 {
    /// The origin.
    fn default() -> (r: Self)
        ensures
            r.x == 0 && r.y == 0,
    {
        Vec2 { x: 0, y: 0 }
    }
}

impl Vec2 {
    /// Component-wise sum.
    pub fn add(self, rhs: Vec2) -> (r: Vec2)
        requires
            fits_i32(self.x + rhs.x),
            fits_i32(self.y + rhs.y),
        ensures
            r.x == self.x + rhs.x,
            r.y == self.y + rhs.y,
    {
        Vec2 { x: self.x + rhs.x, y: self.y + rhs.y }
    }

    /// Component-wise difference.
    pub fn sub(self, rhs: Vec2) -> (r: Vec2)
        requires
            fits_i32(self.x - rhs.x),
            fits_i32(self.y - rhs.y),
        ensures
            r.x == self.x - rhs.x,
            r.y == self.y - rhs.y,
    {
        Vec2 { x: self.x - rhs.x, y: self.y - rhs.y }
    }

    /// Component-wise negation.
    pub fn neg(self) -> (r: Vec2)
        requires
            self.x != i32::MIN,
            self.y != i32::MIN,
        ensures
            r.x == -self.x,
            r.y == -self.y,
    {
        Vec2 { x: -self.x, y: -self.y }
    }

    /// Scalar multiplication.
    pub fn mul(self, rhs: i32) -> (r: Vec2)
        requires
            fits_i32(self.x * rhs),
            fits_i32(self.y * rhs),
        ensures
            r.x == self.x * rhs,
            r.y == self.y * rhs,
    {
        Vec2 { x: self.x * rhs, y: self.y * rhs }
    }

    /// Scalar division; each component truncates toward zero.
    pub fn div(self, rhs: i32) -> (r: Vec2)
        requires
            rhs != 0,
            !(self.x == i32::MIN && rhs == -1),
            !(self.y == i32::MIN && rhs == -1),
        ensures
            r.x == div_trunc(self.x as int, rhs as int),
            r.y == div_trunc(self.y as int, rhs as int),
    {
        Vec2 { x: div_i32(self.x, rhs), y: div_i32(self.y, rhs) }
    }
}

/// An axis-aligned rectangle: bottom-left corner plus size.
/// Well-formed rectangles have non-negative width and height.
#[derive(Clone, Copy, Debug, PartialEq, Eq)]
pub struct Rect {
    pub x: i32,
    pub y: i32,
    pub w: i32,
    pub h: i32,
}

impl Default for Rect {
    /// The empty rectangle at the origin.
    fn default() -> (r: Self)
        ensures
            r.x == 0 && r.y == 0 && r.w == 0 && r.h == 0,
    {
        Rect { x: 0, y: 0, w: 0, h: 0 }
    }
}

impl Rect {
    /// Non-negative size, the rectangle invariant.
    pub open spec fn wf(self) -> bool {
        self.w >= 0 && self.h >= 0
    }

    /// Center abscissa, as the stored corner plus half the width.
    pub open spec fn spec_center_x(self) -> int {
        self.x + self.w / 2
    }

    /// Center ordinate, as the stored corner plus half the height.
    pub open spec fn spec_center_y(self) -> int {
        self.y + self.h / 2
    }

    /// The corner with the least coordinates.
    pub fn point_left_bottom(&self) -> (r: Vec2)
        ensures
            r.x == self.x,
            r.y == self.y,
    {
        Vec2 { x: self.x, y: self.y }
    }

    /// The corner opposite `point_left_bottom`.
    pub fn point_right_top(&self) -> (r: Vec2)
        requires
            fits_i32(self.x + self.w),
            fits_i32(self.y + self.h),
        ensures
            r.x == self.x + self.w,
            r.y == self.y + self.h,
    {
        Vec2 { x: self.x + self.w, y: self.y + self.h }
    }

    /// Get the center point of the rect.
    pub fn point_center(&self) -> (r: Vec2)
        requires
            self.wf(),
            fits_i32(self.spec_center_x()),
            fits_i32(self.spec_center_y()),
        ensures
            r.x == self.spec_center_x(),
            r.y == self.spec_center_y(),
    {
        Vec2 { x: self.x + half(self.w), y: self.y + half(self.h) }
    }

    /// The size as a vector.
    pub fn size(&self) -> (r: Vec2)
        ensures
            r.x == self.w,
            r.y == self.h,
    {
        Vec2 { x: self.w, y: self.h }
    }

    /// Rectangle with corner `start` and size `size`.
    pub fn from_start_size(start: Vec2, size: Vec2) -> (r: Self)
        ensures
            r.x == start.x,
            r.y == start.y,
            r.w == size.x,
            r.h == size.y,
    {
        Rect { x: start.x, y: start.y, w: size.x, h: size.y }
    }

    /// Rectangle with center `center` and size `size`.
    pub fn from_center_size(center: Vec2, size: Vec2) -> (r: Self)
        requires
            size.x >= 0,
            size.y >= 0,
            fits_i32(center.x - size.x / 2),
            fits_i32(center.y - size.y / 2),
        ensures
            r.x == center.x - size.x / 2,
            r.y == center.y - size.y / 2,
            r.w == size.x,
            r.h == size.y,
    {
        Rect {
            x: center.x - half(size.x),
            y: center.y - half(size.y),
            w: size.x,
            h: size.y,
        }
    }

    /// Translate by `offset`; the size is unchanged.
    pub fn transform(self, offset: Vec2) -> (r: Self)
        requires
            fits_i32(self.x + offset.x),
            fits_i32(self.y + offset.y),
        ensures
            r.x == self.x + offset.x,
            r.y == self.y + offset.y,
            r.w == self.w,
            r.h == self.h,
    {
        Rect { x: self.x + offset.x, y: self.y + offset.y, w: self.w, h: self.h }
    }

    /// Scale rect while center point is fixed.
    pub fn scale_up(self, scale: i32) -> (r: Self)
        requires
            self.wf(),
            scale >= 0,
            fits_i32(self.spec_center_x()),
            fits_i32(self.spec_center_y()),
            fits_i32(self.w * scale),
            fits_i32(self.h * scale),
            fits_i32(self.spec_center_x() - (self.w * scale) / 2),
            fits_i32(self.spec_center_y() - (self.h * scale) / 2),
        ensures
            r.x == self.spec_center_x() - (self.w * scale) / 2,
            r.y == self.spec_center_y() - (self.h * scale) / 2,
            r.w == self.w * scale,
            r.h == self.h * scale,
    {
        Rect::from_center_size(self.point_center(), self.size().mul(scale))
    }

    /// Scale rect while center point is fixed.
    /// It uses integer division; compose `scale_up` and `scale_down`
    /// to scale by a rational factor.
    pub fn scale_down(self, scale: i32) -> (r: Self)
        requires
            self.wf(),
            scale > 0,
            fits_i32(self.spec_center_x()),
            fits_i32(self.spec_center_y()),
        ensures
            r.x == self.spec_center_x() - (self.w / scale) / 2,
            r.y == self.spec_center_y() - (self.h / scale) / 2,
            r.w == self.w / scale,
            r.h == self.h / scale,
    {
        let size = Vec2 { x: div_nonneg(self.w, scale), y: div_nonneg(self.h, scale) };
        Rect::from_center_size(self.point_center(), size)
    }

    /// Axis-aligned bounding-box overlap test: true when the interiors
    /// of the two rectangles intersect.
    pub fn collides(&self, other: &Rect) -> (r: bool)
        requires
            fits_i32(self.x + self.w),
            fits_i32(self.y + self.h),
            fits_i32(other.x + other.w),
            fits_i32(other.y + other.h),
        ensures
            r == (self.x < other.x + other.w && self.x + self.w > other.x
                && self.y < other.y + other.h && self.y + self.h > other.y),
    {
        self.x < other.x + other.w && self.x + self.w > other.x
            && self.y < other.y + other.h && self.y + self.h > other.y
    }
}

/// A 2D point in screen coordinates, used by line-drawing commands.
#[derive(Clone, Copy, Debug, PartialEq, Eq)]
pub struct Point {
    pub x: i32,
    pub y: i32,
}

impl Point {
    /// Translate the point by a size.
    pub fn add(self, rhs: Size) -> (r: Point)
        requires
            fits_i32(self.x + rhs.w),
            fits_i32(self.y + rhs.h),
        ensures
            r.x == self.x + rhs.w,
            r.y == self.y + rhs.h,
    {
        Point { x: self.x + rhs.w, y: self.y + rhs.h }
    }

    /// Reinterpret the coordinates as a size.
    pub fn to_size(self) -> (r: Size)
        ensures
            r.w == self.x,
            r.h == self.y,
    {
        Size { w: self.x, h: self.y }
    }
}

/// A 2D extent: a width and a height.
#[derive(Clone, Copy, Debug, PartialEq, Eq)]
pub struct Size {
    pub w: i32,
    pub h: i32,
}

impl Size {
    /// Reinterpret the extent as a point.
    pub fn to_point(self) -> (r: Point)
        ensures
            r.x == self.w,
            r.y == self.h,
    {
        Point { x: self.w, y: self.h }
    }

    /// Component-wise negation.
    pub fn neg(self) -> (r: Size)
        requires
            self.w != i32::MIN,
            self.h != i32::MIN,
        ensures
            r.w == -self.w,
            r.h == -self.h,
    {
        Size { w: -self.w, h: -self.h }
    }

    /// Scalar multiplication.
    pub fn mul(self, rhs: i32) -> (r: Size)
        requires
            fits_i32(self.w * rhs),
            fits_i32(self.h * rhs),
        ensures
            r.w == self.w * rhs,
            r.h == self.h * rhs,
    {
        Size { w: self.w * rhs, h: self.h * rhs }
    }

    /// Scalar division; each component truncates toward zero.
    pub fn div(self, rhs: i32) -> (r: Size)
        requires
            rhs != 0,
            !(self.w == i32::MIN && rhs == -1),
            !(self.h == i32::MIN && rhs == -1),
        ensures
            r.w == div_trunc(self.w as int, rhs as int),
            r.h == div_trunc(self.h as int, rhs as int),
    {
        Size { w: div_i32(self.w, rhs), h: div_i32(self.h, rhs) }
    }
}

} // verus!
