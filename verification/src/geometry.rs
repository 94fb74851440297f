//! Positions, sizes, bounding boxes and measurement constraints.
//!
//! Coordinates are `i32` and sizes are `u32`. Where a coordinate is moved by a size or an
//! offset, the sum wraps around on overflow, which is what a release build of the widget
//! arithmetic does; the spec functions below say so exactly.

use vstd::prelude::*;

pub mod axis_order;
pub mod measurement;

pub use measurement::{MeasureConstraint, MeasureSpec};

verus! {

/// `v` wrapped into the range of `i32`, for values at most one range width away.
pub open spec fn wrap_i32(v: int) -> i32 {
    if v > i32::MAX {
        (v - 0x1_0000_0000) as i32
    } else if v < i32::MIN {
        (v + 0x1_0000_0000) as i32
    } else {
        v as i32
    }
}

/// `v` wrapped into the range of `u32`, for `0 <= v < 2 * 2^32`.
pub open spec fn wrap_u32(v: int) -> u32 {
    if v > u32::MAX {
        (v - 0x1_0000_0000) as u32
    } else {
        v as u32
    }
}

/// A `u32` reinterpreted as an `i32`, as the `as` cast does.
pub open spec fn u32_to_i32(v: u32) -> i32 {
    wrap_i32(v as int)
}

/// Reinterprets a `u32` as an `i32` (two's complement), as `as` does.
pub fn cast_u32_i32(v: u32) -> (r: i32)
    ensures
        r == u32_to_i32(v),
{
    if v <= 0x7fff_ffff {
        v as i32
    } else {
        let d: u32 = v - 0x8000_0000;
        (d as i32) + i32::MIN
    }
}

/// An `i32` reinterpreted as a `u32`, as the `as` cast does.
pub open spec fn i32_to_u32(v: i32) -> u32 {
    if v >= 0 {
        v as u32
    } else {
        (v + 0x1_0000_0000) as u32
    }
}

/// Reinterprets an `i32` as a `u32` (two's complement), as `as` does.
pub fn cast_i32_u32(v: i32) -> (r: u32)
    ensures
        r == i32_to_u32(v),
{
    if v >= 0 {
        v as u32
    } else {
        let w: i64 = v as i64 + 0x1_0000_0000i64;
        w as u32
    }
}

/// Integer division rounding towards zero, as `/` does on integers.
pub open spec fn trunc_div(a: int, b: int) -> int {
    if a >= 0 {
        if b > 0 {
            a / b
        } else {
            -(a / -b)
        }
    } else {
        if b > 0 {
            -((-a) / b)
        } else {
            (-a) / (-b)
        }
    }
}

/// Divides, rounding towards zero as `/` does; the one quotient that does not fit, of
/// `i32::MIN` by `-1`, wraps around.
pub fn trunc_div_i32(a: i32, b: i32) -> (r: i32)
    requires
        b != 0,
    ensures
        r == wrap_i32(trunc_div(a as int, b as int)),
{
    if b == -1 {
        return wrapping_sub_i32(0, a);
    }
    let ua: i64 = if a >= 0 { a as i64 } else { -(a as i64) };
    let ub: i64 = if b >= 0 { b as i64 } else { -(b as i64) };
    let q: i64 = ua / ub;
    assert(0 <= q <= ua) by (nonlinear_arith)
        requires
            ua >= 0,
            ub >= 1,
            q == ua / ub,
    ;
    if ub >= 2 {
        assert(q <= 0x4000_0000) by (nonlinear_arith)
            requires
                0 <= ua <= 0x8000_0000,
                ub >= 2,
                q == ua / ub,
        ;
    }
    if (a < 0) != (b < 0) {
        (-q) as i32
    } else {
        q as i32
    }
}

/// Divides, rounding towards zero as `/` does, on wide integers.
pub fn trunc_div_i128(a: i128, b: i128) -> (r: i128)
    requires
        b != 0,
        -0x1_0000_0000_0000_0000_0000 < a < 0x1_0000_0000_0000_0000_0000,
        -0x1_0000_0000_0000_0000_0000 < b < 0x1_0000_0000_0000_0000_0000,
    ensures
        r == trunc_div(a as int, b as int),
        -0x1_0000_0000_0000_0000_0000 < r < 0x1_0000_0000_0000_0000_0000,
{
    let ua: i128 = if a >= 0 { a } else { -a };
    let ub: i128 = if b >= 0 { b } else { -b };
    let q: i128 = ua / ub;
    assert(0 <= q <= ua) by (nonlinear_arith)
        requires
            ua >= 0,
            ub >= 1,
            q == ua / ub,
    ;
    if (a < 0) != (b < 0) {
        -q
    } else {
        q
    }
}

/// The product of two numbers less than `m` in size is less than `m * m` in size.
pub proof fn lemma_mul_magnitude(a: int, b: int, m: int)
    requires
        m > 0,
        -m < a < m,
        -m < b < m,
    ensures
        -(m * m) < a * b < m * m,
{
    if a >= 0 && b >= 0 {
        assert(a * b < m * m) by (nonlinear_arith)
            requires
                0 <= a < m,
                0 <= b < m,
        ;
        assert(a * b >= 0) by (nonlinear_arith)
            requires
                0 <= a,
                0 <= b,
        ;
    } else if a < 0 && b < 0 {
        assert((-a) * (-b) < m * m) by (nonlinear_arith)
            requires
                0 < -a < m,
                0 < -b < m,
        ;
        assert(a * b == (-a) * (-b)) by (nonlinear_arith);
        assert(a * b >= 0) by (nonlinear_arith)
            requires
                a < 0,
                b < 0,
        ;
    } else if a < 0 {
        assert((-a) * b < m * m) by (nonlinear_arith)
            requires
                0 < -a < m,
                0 <= b < m,
        ;
        assert(a * b == -((-a) * b)) by (nonlinear_arith);
        assert((-a) * b >= 0) by (nonlinear_arith)
            requires
                0 < -a,
                0 <= b,
        ;
    } else {
        assert(a * (-b) < m * m) by (nonlinear_arith)
            requires
                0 <= a < m,
                0 < -b < m,
        ;
        assert(a * b == -(a * (-b))) by (nonlinear_arith);
        assert(a * (-b) >= 0) by (nonlinear_arith)
            requires
                0 <= a,
                0 < -b,
        ;
    }
}

/// Reading a `u32` as an `i32` and back gives the same value.
pub proof fn lemma_u32_i32_roundtrip(v: i32)
    ensures
        u32_to_i32(i32_to_u32(v)) == v,
{
}

/// Adds two coordinates, wrapping around on overflow.
pub fn wrapping_add_i32(a: i32, b: i32) -> (r: i32)
    ensures
        r == wrap_i32(a + b),
{
    a.wrapping_add(b)
}

/// Subtracts two coordinates, wrapping around on overflow.
pub fn wrapping_sub_i32(a: i32, b: i32) -> (r: i32)
    ensures
        r == wrap_i32(a - b),
{
    a.wrapping_sub(b)
}

/// Adds two sizes, wrapping around on overflow.
pub fn wrapping_add_u32(a: u32, b: u32) -> (r: u32)
    ensures
        r == wrap_u32(a + b),
{
    a.wrapping_add(b)
}

/// Twice a size, wrapping around on overflow.
pub fn wrapping_double_u32(a: u32) -> (r: u32)
    ensures
        r == wrap_u32(2 * a),
{
    a.wrapping_add(a)
}

/// Wrapping subtraction undoes wrapping addition.
pub proof fn lemma_wrap_add_sub(a: i32, b: i32)
    ensures
        wrap_i32(wrap_i32(a + b) - b) == a,
{
}

/// The larger of two sizes.
pub fn max_u32(a: u32, b: u32) -> (r: u32)
    ensures
        r == (if a >= b { a } else { b }),
{
    if a >= b {
        a
    } else {
        b
    }
}

/// A point on the display.
#[derive(Clone, Copy, Debug, PartialEq, Eq, Structural)]
pub struct Position {
    pub x: i32,
    pub y: i32,
}

/// A difference between two points.
#[derive(Clone, Copy, Debug, PartialEq, Eq, Structural)]
pub struct PositionDelta {
    pub x: i32,
    pub y: i32,
}

/// The size of a widget.
#[derive(Clone, Copy, Debug, PartialEq, Eq, Structural)]
pub struct MeasuredSize {
    pub width: u32,
    pub height: u32,
}

/// The area a widget occupies.
#[derive(Clone, Copy, Debug, PartialEq, Eq, Structural)]
pub struct BoundingBox {
    pub position: Position,
    pub size: MeasuredSize,
}

impl Position {
    pub open spec fn spec_translate(self, d: PositionDelta) -> Position {
        Position { x: wrap_i32(self.x + d.x), y: wrap_i32(self.y + d.y) }
    }

    pub open spec fn spec_translate_back(self, d: PositionDelta) -> Position {
        Position { x: wrap_i32(self.x - d.x), y: wrap_i32(self.y - d.y) }
    }

    pub open spec fn spec_delta_from(self, other: Position) -> PositionDelta {
        PositionDelta { x: wrap_i32(self.x - other.x), y: wrap_i32(self.y - other.y) }
    }

    /// The origin.
    pub fn zero() -> (r: Position)
        ensures
            r == (Position { x: 0, y: 0 }),
    {
        Position { x: 0, y: 0 }
    }

    /// Moves the point by `d` (the `+` of a position and a delta).
    pub fn translate(self, d: PositionDelta) -> (r: Position)
        ensures
            r == self.spec_translate(d),
    {
        Position { x: wrapping_add_i32(self.x, d.x), y: wrapping_add_i32(self.y, d.y) }
    }

    /// Moves the point by `-d` (the `-` of a position and a delta).
    pub fn translate_back(self, d: PositionDelta) -> (r: Position)
        ensures
            r == self.spec_translate_back(d),
    {
        Position { x: wrapping_sub_i32(self.x, d.x), y: wrapping_sub_i32(self.y, d.y) }
    }

    /// Adds two positions component-wise.
    pub fn plus(self, other: Position) -> (r: Position)
        ensures
            r == (Position { x: wrap_i32(self.x + other.x), y: wrap_i32(self.y + other.y) }),
    {
        Position { x: wrapping_add_i32(self.x, other.x), y: wrapping_add_i32(self.y, other.y) }
    }

    /// The delta that leads from `other` to `self` (the `-` of two positions).
    pub fn delta_from(self, other: Position) -> (r: PositionDelta)
        ensures
            r == self.spec_delta_from(other),
    {
        PositionDelta { x: wrapping_sub_i32(self.x, other.x), y: wrapping_sub_i32(self.y, other.y) }
    }
}

impl Default for Position {
    fn default() -> (r: Position)
        ensures
            r == (Position { x: 0, y: 0 }),
    {
        Position { x: 0, y: 0 }
    }
}

impl Default for MeasuredSize {
    fn default() -> (r: MeasuredSize)
        ensures
            r == (MeasuredSize { width: 0, height: 0 }),
    {
        MeasuredSize { width: 0, height: 0 }
    }
}

impl Default for BoundingBox {
    fn default() -> (r: BoundingBox)
        ensures
            r == BoundingBox::spec_empty(),
    {
        BoundingBox::empty()
    }
}

impl BoundingBox {
    pub open spec fn spec_empty() -> BoundingBox {
        BoundingBox {
            position: Position { x: 0, y: 0 },
            size: MeasuredSize { width: 0, height: 0 },
        }
    }

    /// Whether `p` lies inside the box: the box covers the half-open ranges
    /// `[x, x + width)` and `[y, y + height)`.
    pub open spec fn spec_contains(self, p: Position) -> bool {
        &&& self.position.x <= p.x
        &&& p.x < self.position.x + self.size.width
        &&& self.position.y <= p.y
        &&& p.y < self.position.y + self.size.height
    }

    /// A box of no size at the origin.
    pub fn empty() -> (r: BoundingBox)
        ensures
            r == BoundingBox::spec_empty(),
    {
        BoundingBox {
            position: Position { x: 0, y: 0 },
            size: MeasuredSize { width: 0, height: 0 },
        }
    }

    /// Whether `p` lies inside the box.
    pub fn contains(&self, p: Position) -> (r: bool)
        ensures
            r == self.spec_contains(p),
    {
        let px = p.x as i64;
        let py = p.y as i64;
        let x0 = self.position.x as i64;
        let y0 = self.position.y as i64;
        let x1 = x0 + self.size.width as i64;
        let y1 = y0 + self.size.height as i64;
        x0 <= px && px < x1 && y0 <= py && py < y1
    }
}

} // verus!
