//! Geometry primitives of the camera wrapper layer: points, sizes, size
//! ranges and rectangles, with the alignment, bounding and scaling helpers
//! the stream-configuration code relies on.

use vstd::prelude::*;

verus! {

/// A point on the sensor plane, in pixels.
#[derive(Debug, Clone, Copy, PartialEq, Eq, Structural)]
pub struct Point {
    pub x: i32,
    pub y: i32,
}

/// A two-dimensional size in pixels.
#[derive(Debug, Clone, Copy, PartialEq, Eq, Structural)]
pub struct Size {
    pub width: u32,
    pub height: u32,
}

/// `align_down(v, a)`: largest multiple of `a` that is at most `v` (for `a > 0`).
pub open spec fn align_down(v: int, a: int) -> int {
    (v / a) * a
}

/// `align_up(v, a)`: smallest multiple of `a` that is at least `v` (for `a > 0`).
pub open spec fn align_up(v: int, a: int) -> int {
    ((v + a - 1) / a) * a
}

impl Size {
    pub fn new(width: u32, height: u32) -> (r: Self)
        ensures
            r == (Size { width, height }),
    {
        Self { width, height }
    }

    /// Round both dimensions down to the given alignments; zero alignment
    /// leaves the size unchanged.
    pub fn align_down_to(self, h_alignment: u32, v_alignment: u32) -> (r: Self)
        ensures
            h_alignment == 0 || v_alignment == 0 ==> r == self,
            h_alignment != 0 && v_alignment != 0 ==> {
                &&& r.width == align_down(self.width as int, h_alignment as int)
                &&& r.height == align_down(self.height as int, v_alignment as int)
            },
    {
        if h_alignment == 0 || v_alignment == 0 {
            return self;
        }
        Self {
            width: align_down_u32(self.width, h_alignment),
            height: align_down_u32(self.height, v_alignment),
        }
    }

    /// Round both dimensions up to the given alignments; zero alignment
    /// leaves the size unchanged. The caller must keep the rounded values
    /// inside `u32`.
    pub fn align_up_to(self, h_alignment: u32, v_alignment: u32) -> (r: Self)
        requires
            h_alignment != 0 && v_alignment != 0 ==> {
                &&& self.width + h_alignment - 1 <= u32::MAX
                &&& self.height + v_alignment - 1 <= u32::MAX
            },
        ensures
            h_alignment == 0 || v_alignment == 0 ==> r == self,
            h_alignment != 0 && v_alignment != 0 ==> {
                &&& r.width == align_up(self.width as int, h_alignment as int)
                &&& r.height == align_up(self.height as int, v_alignment as int)
            },
    {
        if h_alignment == 0 || v_alignment == 0 {
            return self;
        }
        let w = align_up_u32(self.width, h_alignment);
        let h = align_up_u32(self.height, v_alignment);
        Self { width: w, height: h }
    }

    /// Clamp both dimensions from above by `bound`.
    pub fn bound_to(self, bound: Size) -> (r: Self)
        ensures
            r.width == vstd::math::min(self.width as int, bound.width as int),
            r.height == vstd::math::min(self.height as int, bound.height as int),
    {
        Self {
            width: if self.width < bound.width {
                self.width
            } else {
                bound.width
            },
            height: if self.height < bound.height {
                self.height
            } else {
                bound.height
            },
        }
    }

    /// Raise both dimensions to at least `expand`.
    pub fn expand_to(self, expand: Size) -> (r: Self)
        ensures
            r.width == vstd::math::max(self.width as int, expand.width as int),
            r.height == vstd::math::max(self.height as int, expand.height as int),
    {
        Self {
            width: if self.width > expand.width {
                self.width
            } else {
                expand.width
            },
            height: if self.height > expand.height {
                self.height
            } else {
                expand.height
            },
        }
    }

    /// Add margins, saturating at `u32::MAX`.
    pub fn grow_by(self, margins: Size) -> (r: Self)
        ensures
            r.width == vstd::math::min(self.width as int + margins.width as int, u32::MAX as int),
            r.height == vstd::math::min(
                self.height as int + margins.height as int,
                u32::MAX as int,
            ),
    {
        Self {
            width: saturating_add_u32(self.width, margins.width),
            height: saturating_add_u32(self.height, margins.height),
        }
    }

    /// Subtract margins, saturating at zero.
    pub fn shrink_by(self, margins: Size) -> (r: Self)
        ensures
            r.width == vstd::math::max(self.width as int - margins.width as int, 0),
            r.height == vstd::math::max(self.height as int - margins.height as int, 0),
    {
        Self {
            width: if self.width > margins.width {
                self.width - margins.width
            } else {
                0
            },
            height: if self.height > margins.height {
                self.height - margins.height
            } else {
                0
            },
        }
    }

    /// Shrink one dimension so the size matches the aspect ratio of `ratio`;
    /// a ratio with a zero component leaves the size unchanged.
    pub fn bounded_to_aspect_ratio(self, ratio: Size) -> (r: Self)
        ensures
            ratio.width == 0 || ratio.height == 0 ==> r == self,
            ratio.width != 0 && ratio.height != 0 ==> {
                let r1 = self.width as int * ratio.height as int;
                let r2 = ratio.width as int * self.height as int;
                if r1 > r2 {
                    r == (Size { width: (r2 / ratio.height as int) as u32, height: self.height })
                } else {
                    r == (Size { width: self.width, height: (r1 / ratio.width as int) as u32 })
                }
            },
    {
        if ratio.width == 0 || ratio.height == 0 {
            return self;
        }
        let ratio1: u64 = mul_u32(self.width, ratio.height);
        let ratio2: u64 = mul_u32(ratio.width, self.height);

        if ratio1 > ratio2 {
            let w64: u64 = ratio2 / ratio.height as u64;
            proof {
                assert(w64 * ratio.height as int <= ratio2) by (nonlinear_arith)
                    requires
                        ratio.height > 0,
                        w64 == ratio2 as int / ratio.height as int,
                ;
                // w64 * ratio.height <= ratio2 < ratio1 = self.width * ratio.height,
                // hence w64 < self.width and the cast below is lossless.
                assert(w64 < self.width) by (nonlinear_arith)
                    requires
                        ratio.height > 0,
                        w64 * ratio.height as int <= ratio2,
                        ratio2 < self.width as int * ratio.height as int,
                ;
            }
            Self { width: w64 as u32, height: self.height }
        } else {
            let h64: u64 = ratio1 / ratio.width as u64;
            proof {
                assert(h64 * ratio.width as int <= ratio1) by (nonlinear_arith)
                    requires
                        ratio.width > 0,
                        h64 == ratio1 as int / ratio.width as int,
                ;
                assert(h64 <= self.height) by (nonlinear_arith)
                    requires
                        ratio.width > 0,
                        h64 * ratio.width as int <= ratio1,
                        ratio1 <= ratio2,
                        ratio2 == ratio.width as int * self.height as int,
                ;
            }
            Self { width: self.width, height: h64 as u32 }
        }
    }

    /// Grow one dimension so the size matches the aspect ratio of `ratio`;
    /// a ratio with a zero component leaves the size unchanged. The caller
    /// must keep the grown dimension inside `u32`.
    pub fn expanded_to_aspect_ratio(self, ratio: Size) -> (r: Self)
        requires
            ratio.width != 0 && ratio.height != 0 ==> {
                &&& ratio.width as int * self.height as int / ratio.height as int <= u32::MAX
                &&& self.width as int * ratio.height as int / ratio.width as int <= u32::MAX
            },
        ensures
            ratio.width == 0 || ratio.height == 0 ==> r == self,
            ratio.width != 0 && ratio.height != 0 ==> {
                let r1 = self.width as int * ratio.height as int;
                let r2 = ratio.width as int * self.height as int;
                if r1 < r2 {
                    r == (Size { width: (r2 / ratio.height as int) as u32, height: self.height })
                } else {
                    r == (Size { width: self.width, height: (r1 / ratio.width as int) as u32 })
                }
            },
    {
        if ratio.width == 0 || ratio.height == 0 {
            return self;
        }
        let ratio1: u64 = mul_u32(self.width, ratio.height);
        let ratio2: u64 = mul_u32(ratio.width, self.height);

        if ratio1 < ratio2 {
            let w64: u64 = ratio2 / ratio.height as u64;
            Self { width: w64 as u32, height: self.height }
        } else {
            let h64: u64 = ratio1 / ratio.width as u64;
            Self { width: self.width, height: h64 as u32 }
        }
    }

    /// Rectangle of this size whose centre is at `center`. The caller keeps
    /// the resulting corner inside `i32`.
    pub fn centered_to(self, center: Point) -> (r: Rectangle)
        requires
            i32::MIN <= center.x as int - self.width as int / 2,
            i32::MIN <= center.y as int - self.height as int / 2,
        ensures
            r == (Rectangle {
                x: (center.x as int - self.width as int / 2) as i32,
                y: (center.y as int - self.height as int / 2) as i32,
                width: self.width,
                height: self.height,
            }),
    {
        let x = center.x - (self.width / 2) as i32;
        let y = center.y - (self.height / 2) as i32;
        Rectangle { x, y, width: self.width, height: self.height }
    }

    /// Swap width and height.
    pub fn transposed(self) -> (r: Self)
        ensures
            r == (Size { width: self.height, height: self.width }),
    {
        Size { width: self.height, height: self.width }
    }
}

/// Round `v` down to a multiple of `a`.
fn align_down_u32(v: u32, a: u32) -> (r: u32)
    requires
        a != 0,
    ensures
        r == align_down(v as int, a as int),
{
    let q = v / a;
    proof {
        assert(q * a == align_down(v as int, a as int) && 0 <= q * a <= v) by (nonlinear_arith)
            requires
                a > 0,
                q == v as int / a as int,
        ;
    }
    q * a
}

/// Round `v` up to a multiple of `a`.
fn align_up_u32(v: u32, a: u32) -> (r: u32)
    requires
        a != 0,
        v + a - 1 <= u32::MAX,
    ensures
        r == align_up(v as int, a as int),
{
    let m = v + (a - 1);
    let q = m / a;
    proof {
        assert(q * a == align_up(v as int, a as int) && 0 <= q * a <= m) by (nonlinear_arith)
            requires
                a > 0,
                m == v + a - 1,
                q == m as int / a as int,
        ;
    }
    q * a
}

/// `a * b` widened to `u64`; the product of two `u32` values always fits.
fn mul_u32(a: u32, b: u32) -> (r: u64)
    ensures
        r == a as int * b as int,
{
    proof {
        assert(0 <= a as int * b as int <= u32::MAX as int * u32::MAX as int)
            by (nonlinear_arith)
            requires
                0 <= a <= u32::MAX,
                0 <= b <= u32::MAX,
        ;
    }
    a as u64 * b as u64
}

/// `a * b` widened to `i64`; the product of an `i32` and a `u32` always fits.
fn mul_i32_u32(a: i32, b: u32) -> (r: i64)
    ensures
        r == a as int * b as int,
{
    proof {
        assert(i32::MIN as int * u32::MAX as int <= a as int * b as int <= i32::MAX as int
            * u32::MAX as int) by (nonlinear_arith)
            requires
                i32::MIN <= a <= i32::MAX,
                0 <= b <= u32::MAX,
        ;
    }
    a as i64 * b as i64
}

/// `a + b`, saturating at `u32::MAX`.
fn saturating_add_u32(a: u32, b: u32) -> (r: u32)
    ensures
        r == vstd::math::min(a as int + b as int, u32::MAX as int),
{
    if a > u32::MAX - b {
        u32::MAX
    } else {
        a + b
    }
}

/// `a + b`, saturating at the `i32` bounds.
fn saturating_add_i32(a: i32, b: i32) -> (r: i32)
    ensures
        r == vstd::math::max(
            vstd::math::min(a as int + b as int, i32::MAX as int),
            i32::MIN as int,
        ),
{
    if b >= 0 {
        if a > i32::MAX - b {
            i32::MAX
        } else {
            a + b
        }
    } else {
        if a < i32::MIN - b {
            i32::MIN
        } else {
            a + b
        }
    }
}

/// Clamp `val` to `[min, max]`; when `max < min` the lower bound wins first,
/// then the upper bound, mirroring a chain of two comparisons.
fn clamp_i64(val: i64, min: i64, max: i64) -> (r: i64)
    ensures
        r == spec_clamp(val as int, min as int, max as int),
{
    if val < min {
        min
    } else if val > max {
        max
    } else {
        val
    }
}

/// Division as the machine performs it on signed integers: the quotient is
/// rounded toward zero.
pub open spec fn div_trunc(a: int, b: int) -> int {
    if a >= 0 {
        a / b
    } else {
        -((-a) / b)
    }
}

pub open spec fn spec_clamp(val: int, min: int, max: int) -> int {
    if val < min {
        min
    } else if val > max {
        max
    } else {
        val
    }
}

/// An inclusive range of sizes with optional step constraints.
#[derive(Debug, Clone, Copy, PartialEq, Eq, Structural)]
pub struct SizeRange {
    pub min: Size,
    pub max: Size,
    pub h_step: u32,
    pub v_step: u32,
}

impl SizeRange {
    /// A size lies in the range when it is inside the min/max box and the
    /// distance to the minimum is a multiple of each non-zero step.
    pub fn contains(&self, size: Size) -> (r: bool)
        ensures
            r == {
                &&& self.min.width <= size.width <= self.max.width
                &&& self.min.height <= size.height <= self.max.height
                &&& (self.h_step != 0 ==> (size.width - self.min.width) % (self.h_step as int)
                    == 0)
                &&& (self.v_step != 0 ==> (size.height - self.min.height) % (self.v_step as int)
                    == 0)
            },
    {
        if size.width < self.min.width || size.width > self.max.width
            || size.height < self.min.height || size.height > self.max.height {
            return false;
        }

        if self.h_step != 0 {
            let delta_w = size.width - self.min.width;
            if delta_w % self.h_step != 0 {
                return false;
            }
        }
        if self.v_step != 0 {
            let delta_h = size.height - self.min.height;
            if delta_h % self.v_step != 0 {
                return false;
            }
        }

        true
    }
}

/// An axis-aligned rectangle: top-left corner plus size.
#[derive(Debug, Clone, Copy, PartialEq, Eq, Structural)]
pub struct Rectangle {
    pub x: i32,
    pub y: i32,
    pub width: u32,
    pub height: u32,
}

impl Rectangle {
    pub fn size(&self) -> (r: Size)
        ensures
            r == (Size { width: self.width, height: self.height }),
    {
        Size { width: self.width, height: self.height }
    }

    /// Centre point, saturating at the `i32` bounds.
    pub fn center(&self) -> (r: Point)
        ensures
            r.x == vstd::math::max(
                vstd::math::min(self.x as int + self.width as int / 2, i32::MAX as int),
                i32::MIN as int,
            ),
            r.y == vstd::math::max(
                vstd::math::min(self.y as int + self.height as int / 2, i32::MAX as int),
                i32::MIN as int,
            ),
    {
        let half_w = (self.width / 2) as i32;
        let half_h = (self.height / 2) as i32;
        Point { x: saturating_add_i32(self.x, half_w), y: saturating_add_i32(self.y, half_h) }
    }

    pub fn top_left(&self) -> (r: Point)
        ensures
            r == (Point { x: self.x, y: self.y }),
    {
        Point { x: self.x, y: self.y }
    }

    /// Intersection with `bound`; an empty intersection yields a zero-sized
    /// rectangle placed at the clipped top-left corner.
    pub fn bounded_to(self, bound: Rectangle) -> (r: Rectangle)
        ensures
            r == spec_intersection(self, bound),
    {
        let top_left_x: i64 = max_i64(self.x as i64, bound.x as i64);
        let top_left_y: i64 = max_i64(self.y as i64, bound.y as i64);
        let bottom_right_x: i64 = min_i64(
            self.x as i64 + self.width as i64,
            bound.x as i64 + bound.width as i64,
        );
        let bottom_right_y: i64 = min_i64(
            self.y as i64 + self.height as i64,
            bound.y as i64 + bound.height as i64,
        );

        let new_width: u32 = if bottom_right_x > top_left_x {
            (bottom_right_x - top_left_x) as u32
        } else {
            0
        };
        let new_height: u32 = if bottom_right_y > top_left_y {
            (bottom_right_y - top_left_y) as u32
        } else {
            0
        };

        Rectangle { x: top_left_x as i32, y: top_left_y as i32, width: new_width, height: new_height }
    }

    /// Shift the intersection of this rectangle with the boundary's extent so
    /// that it lies fully inside `boundary`.
    pub fn enclosed_in(self, boundary: Rectangle) -> (r: Rectangle)
        ensures
            r == spec_enclosed_in(self, boundary),
    {
        let result = self.bounded_to(
            Rectangle { x: self.x, y: self.y, width: boundary.width, height: boundary.height },
        );

        let max_x: i64 = boundary.x as i64 + boundary.width as i64 - result.width as i64;
        let max_y: i64 = boundary.y as i64 + boundary.height as i64 - result.height as i64;

        let x = clamp_i64(result.x as i64, boundary.x as i64, max_x) as i32;
        let y = clamp_i64(result.y as i64, boundary.y as i64, max_y) as i32;
        Rectangle { x, y, width: result.width, height: result.height }
    }

    /// Translate by `delta`, saturating each coordinate at the `i32` bounds.
    pub fn translated_by(self, delta: Point) -> (r: Rectangle)
        ensures
            r.x == vstd::math::max(
                vstd::math::min(self.x as int + delta.x as int, i32::MAX as int),
                i32::MIN as int,
            ),
            r.y == vstd::math::max(
                vstd::math::min(self.y as int + delta.y as int, i32::MAX as int),
                i32::MIN as int,
            ),
            r.width == self.width,
            r.height == self.height,
    {
        Rectangle {
            x: saturating_add_i32(self.x, delta.x),
            y: saturating_add_i32(self.y, delta.y),
            width: self.width,
            height: self.height,
        }
    }

    /// Scale position and size by the rational factors `numerator /
    /// denominator`; a denominator with a zero component leaves the
    /// rectangle unchanged. The caller keeps the scaled values in range.
    pub fn scaled_by(self, numerator: Size, denominator: Size) -> (r: Rectangle)
        requires
            denominator.width != 0 && denominator.height != 0 ==> {
                &&& i32::MIN <= div_trunc(
                    self.x as int * numerator.width as int,
                    denominator.width as int,
                ) <= i32::MAX
                &&& i32::MIN <= div_trunc(
                    self.y as int * numerator.height as int,
                    denominator.height as int,
                ) <= i32::MAX
                &&& self.width as int * numerator.width as int / denominator.width as int
                    <= u32::MAX
                &&& self.height as int * numerator.height as int / denominator.height as int
                    <= u32::MAX
            },
        ensures
            denominator.width == 0 || denominator.height == 0 ==> r == self,
            denominator.width != 0 && denominator.height != 0 ==> r == (Rectangle {
                x: div_trunc(
                    self.x as int * numerator.width as int,
                    denominator.width as int,
                ) as i32,
                y: div_trunc(
                    self.y as int * numerator.height as int,
                    denominator.height as int,
                ) as i32,
                width: (self.width as int * numerator.width as int
                    / denominator.width as int) as u32,
                height: (self.height as int * numerator.height as int
                    / denominator.height as int) as u32,
            }),
    {
        if denominator.width == 0 || denominator.height == 0 {
            return self;
        }
        let x = (mul_i32_u32(self.x, numerator.width) / denominator.width as i64) as i32;
        let y = (mul_i32_u32(self.y, numerator.height) / denominator.height as i64) as i32;
        let width = (mul_u32(self.width, numerator.width) / denominator.width as u64) as u32;
        let height = (mul_u32(self.height, numerator.height) / denominator.height as u64) as u32;
        Rectangle { x, y, width, height }
    }
}

/// The clipped intersection that `Rectangle::bounded_to` computes.
pub open spec fn spec_intersection(a: Rectangle, bound: Rectangle) -> Rectangle {
    let top_left_x = vstd::math::max(a.x as int, bound.x as int);
    let top_left_y = vstd::math::max(a.y as int, bound.y as int);
    let bottom_right_x = vstd::math::min(a.x + a.width as int, bound.x + bound.width as int);
    let bottom_right_y = vstd::math::min(a.y + a.height as int, bound.y + bound.height as int);
    Rectangle {
        x: top_left_x as i32,
        y: top_left_y as i32,
        width: (if bottom_right_x > top_left_x {
            bottom_right_x - top_left_x
        } else {
            0
        }) as u32,
        height: (if bottom_right_y > top_left_y {
            bottom_right_y - top_left_y
        } else {
            0
        }) as u32,
    }
}

/// The translation that `Rectangle::enclosed_in` computes.
pub open spec fn spec_enclosed_in(a: Rectangle, boundary: Rectangle) -> Rectangle {
    let clipped = spec_intersection(
        a,
        Rectangle { x: a.x, y: a.y, width: boundary.width, height: boundary.height },
    );
    let max_x = boundary.x + boundary.width as int - clipped.width as int;
    let max_y = boundary.y + boundary.height as int - clipped.height as int;
    Rectangle {
        x: spec_clamp(clipped.x as int, boundary.x as int, max_x) as i32,
        y: spec_clamp(clipped.y as int, boundary.y as int, max_y) as i32,
        width: clipped.width,
        height: clipped.height,
    }
}

fn max_i64(a: i64, b: i64) -> (r: i64)
    ensures
        r == vstd::math::max(a as int, b as int),
{
    if a > b {
        a
    } else {
        b
    }
}

fn min_i64(a: i64, b: i64) -> (r: i64)
    ensures
        r == vstd::math::min(a as int, b as int),
{
    if a < b {
        a
    } else {
        b
    }
}

} // verus!
