//! Integer 2-vectors and axis-aligned bounding boxes.
//!
//! All geometry arithmetic saturates at the `i32` range: the engine is total
//! by design, so degenerate coordinates clamp instead of failing.

use vstd::prelude::*;

verus! {

/// Clamp an unbounded integer into the `i32` range.
pub open spec fn sat32(x: int) -> int {
    if x < i32::MIN as int {
        i32::MIN as int
    } else if x > i32::MAX as int {
        i32::MAX as int
    } else {
        x
    }
}

/// Division rounding toward zero, the rule used by machine division on
/// signed integers (defined for `b != 0`).
pub open spec fn tdiv(a: int, b: int) -> int {
    if a == 0 {
        0
    } else if a > 0 && b > 0 {
        a / b
    } else if a < 0 && b < 0 {
        (a * -1) / (b * -1)
    } else if a < 0 {
        ((a * -1) / b) * -1
    } else {
        (a / (b * -1)) * -1
    }
}

/// Saturating addition on `i32`.
pub fn sat_add_i32(a: i32, b: i32) -> (r: i32)
    ensures
        r as int == sat32(a + b),
{
    match a.checked_add(b) {
        Some(c) => c,
        None => {
            if b > 0 {
                i32::MAX
            } else {
                i32::MIN
            }
        },
    }
}

/// Saturating subtraction on `i32`.
pub fn sat_sub_i32(a: i32, b: i32) -> (r: i32)
    ensures
        r as int == sat32(a - b),
{
    match a.checked_sub(b) {
        Some(c) => c,
        None => {
            if b < 0 {
                i32::MAX
            } else {
                i32::MIN
            }
        },
    }
}

/// The larger of two `i32` values.
pub fn max_i32(a: i32, b: i32) -> (r: i32)
    ensures
        r == if a >= b { a } else { b },
{
    if a >= b {
        a
    } else {
        b
    }
}

/// The smaller of two `i32` values.
pub fn min_i32(a: i32, b: i32) -> (r: i32)
    ensures
        r == if a <= b { a } else { b },
{
    if a <= b {
        a
    } else {
        b
    }
}

/// Halve a value, rounding toward zero.
pub fn half_i32(x: i32) -> (r: i32)
    ensures
        r as int == tdiv(x as int, 2),
{
    match x.checked_div(2) {
        Some(q) => q,
        None => 0,
    }
}

/// An integer 2-vector.
#[derive(Clone, Copy, PartialEq, Eq, Structural, Debug)]
pub struct Point {
    pub x: i32,
    pub y: i32,
}

/// A `Point` used semantically as a width/height pair.
pub type Size = Point;

/// Componentwise saturating addition.
pub open spec fn point_sat_add(a: Point, b: Point) -> Point {
    Point { x: sat32(a.x + b.x) as i32, y: sat32(a.y + b.y) as i32 }
}

/// Componentwise saturating subtraction.
pub open spec fn point_sat_sub(a: Point, b: Point) -> Point {
    Point { x: sat32(a.x - b.x) as i32, y: sat32(a.y - b.y) as i32 }
}

impl Point {
    pub fn new(x: i32, y: i32) -> (r: Point)
        ensures
            r == (Point { x, y }),
    {
        Point { x, y }
    }

    /// Add another vector, saturating per component.
    pub fn sat_add(self, other: Point) -> (r: Point)
        ensures
            r == point_sat_add(self, other),
    {
        Point { x: sat_add_i32(self.x, other.x), y: sat_add_i32(self.y, other.y) }
    }

    /// Subtract another vector, saturating per component.
    pub fn sat_sub(self, other: Point) -> (r: Point)
        ensures
            r == point_sat_sub(self, other),
    {
        Point { x: sat_sub_i32(self.x, other.x), y: sat_sub_i32(self.y, other.y) }
    }
}

/// The componentwise minimum of two points.
pub open spec fn spec_point_min(a: Point, b: Point) -> Point {
    Point {
        x: if a.x <= b.x {
            a.x
        } else {
            b.x
        },
        y: if a.y <= b.y {
            a.y
        } else {
            b.y
        },
    }
}

/// The componentwise maximum of two points.
pub open spec fn spec_point_max(a: Point, b: Point) -> Point {
    Point {
        x: if a.x >= b.x {
            a.x
        } else {
            b.x
        },
        y: if a.y >= b.y {
            a.y
        } else {
            b.y
        },
    }
}

pub fn point_min(a: Point, b: Point) -> (r: Point)
    ensures
        r == spec_point_min(a, b),
{
    Point { x: min_i32(a.x, b.x), y: min_i32(a.y, b.y) }
}

pub fn point_max(a: Point, b: Point) -> (r: Point)
    ensures
        r == spec_point_max(a, b),
{
    Point { x: max_i32(a.x, b.x), y: max_i32(a.y, b.y) }
}

/// An axis-aligned bounding box given by two corners.
#[derive(Clone, Copy, PartialEq, Eq, Structural, Debug)]
pub struct Bbox {
    pub min: Point,
    pub max: Point,
}

/// The corner-sorted form of a box: `min` holds the smaller coordinate on
/// each axis and `max` the larger one.
pub open spec fn spec_normalize(b: Bbox) -> Bbox {
    Bbox { min: spec_point_min(b.min, b.max), max: spec_point_max(b.min, b.max) }
}

/// A box whose corners are already sorted per axis.
pub open spec fn is_normal(b: Bbox) -> bool {
    b.min.x <= b.max.x && b.min.y <= b.max.y
}

/// The width/height of a box (saturating, like all geometry arithmetic).
pub open spec fn spec_size(b: Bbox) -> Size {
    point_sat_sub(b.max, b.min)
}

/// Whether the corner-sorted forms of two boxes overlap on both axes
/// (inclusive at the edges).
pub open spec fn spec_contains_bbox(a: Bbox, b: Bbox) -> bool {
    let an = spec_normalize(a);
    let bn = spec_normalize(b);
    an.min.x <= bn.max.x && an.max.x >= bn.min.x && an.min.y <= bn.max.y && an.max.y >= bn.min.y
}

/// The box covered by both `a` and `b`, if they overlap.
pub open spec fn spec_overlapping(a: Bbox, b: Bbox) -> Option<Bbox> {
    if spec_contains_bbox(a, b) {
        Some(
            spec_normalize(
                Bbox { min: spec_point_max(a.min, b.min), max: spec_point_min(a.max, b.max) },
            ),
        )
    } else {
        None
    }
}

impl Bbox {
    /// Build a box from two corners, sorting them per axis.
    pub fn new(min: Point, max: Point) -> (r: Bbox)
        ensures
            r == spec_normalize(Bbox { min, max }),
            is_normal(r),
    {
        (Bbox { min, max }).normalize()
    }

    /// Build a box from an origin corner and a size.
    pub fn with_size(origin: Point, size: Size) -> (r: Bbox)
        ensures
            r == spec_normalize(Bbox { min: origin, max: point_sat_add(origin, size) }),
            is_normal(r),
    {
        Bbox::new(origin, origin.sat_add(size))
    }

    /// Sort the corners so that `min <= max` holds per axis.
    pub fn normalize(self) -> (r: Bbox)
        ensures
            r == spec_normalize(self),
            is_normal(r),
    {
        Bbox { min: point_min(self.min, self.max), max: point_max(self.min, self.max) }
    }

    /// The size of the box: `max - min`.
    pub fn size(&self) -> (r: Size)
        ensures
            r == spec_size(*self),
    {
        self.max.sat_sub(self.min)
    }

    /// Whether this box partially or completely overlaps `other`
    /// (both are compared in corner-sorted form).
    pub fn contains_bbox(self, other: Bbox) -> (r: bool)
        ensures
            r == spec_contains_bbox(self, other),
    {
        let this = self.normalize();
        let that = other.normalize();
        let x = this.min.x <= that.max.x && this.max.x >= that.min.x;
        let y = this.min.y <= that.max.y && this.max.y >= that.min.y;
        x && y
    }

    /// The box covered by both `self` and `other`, if they overlap.
    pub fn overlapping(self, other: Bbox) -> (r: Option<Bbox>)
        ensures
            r == spec_overlapping(self, other),
    {
        if self.contains_bbox(other) {
            let lo = point_max(self.min, other.min);
            let hi = point_min(self.max, other.max);
            Some(Bbox::new(lo, hi))
        } else {
            None
        }
    }

    /// Shift the box by a vector (saturating per component).
    pub fn offset(self, p: Point) -> (r: Bbox)
        ensures
            r == (Bbox { min: point_sat_add(self.min, p), max: point_sat_add(self.max, p) }),
    {
        Bbox { min: self.min.sat_add(p), max: self.max.sat_add(p) }
    }
}

} // verus!
