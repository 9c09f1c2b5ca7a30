//! Points, axis-aligned boxes and circles, with the circle/box overlap test.
use vstd::prelude::*;

verus! {

/// A point (or a vector) of the plane.
#[derive(Clone, Copy, Debug, PartialEq, Eq, Structural)]
pub struct Point {
    pub x: i32,
    pub y: i32,
}

/// `v` forced into `[lo, hi]`.
pub open spec fn clamp_spec(v: int, lo: int, hi: int) -> int {
    if v < lo {
        lo
    } else if v > hi {
        hi
    } else {
        v
    }
}

/// `v` forced into `[lo, hi]`; `lo <= hi` is required.
pub fn clamp(v: i32, lo: i32, hi: i32) -> (r: i32)
    requires
        lo <= hi,
    ensures
        r == clamp_spec(v as int, lo as int, hi as int),
        lo <= r <= hi,
{
    if v < lo {
        lo
    } else if v > hi {
        hi
    } else {
        v
    }
}

/// An axis-aligned box, given by its lowest and highest corners.
#[derive(Clone, Copy, Debug, PartialEq, Eq, Structural)]
pub struct Aabb {
    pub min: Point,
    pub max: Point,
}

impl Aabb {
    /// The corners are ordered on both axes.
    pub open spec fn wf(&self) -> bool {
        self.min.x <= self.max.x && self.min.y <= self.max.y
    }

    /// A box with centre `center` and half extents `half_size` can be held.
    pub open spec fn fits(center: Point, half_size: Point) -> bool {
        &&& 0 <= half_size.x
        &&& 0 <= half_size.y
        &&& i32::MIN <= center.x - half_size.x
        &&& center.x + half_size.x <= i32::MAX
        &&& i32::MIN <= center.y - half_size.y
        &&& center.y + half_size.y <= i32::MAX
    }

    /// The box with centre `center` and half extents `half_size`.
    pub open spec fn from_center_spec(center: Point, half_size: Point) -> Aabb {
        Aabb {
            min: Point { x: (center.x - half_size.x) as i32, y: (center.y - half_size.y) as i32 },
            max: Point { x: (center.x + half_size.x) as i32, y: (center.y + half_size.y) as i32 },
        }
    }

    /// The box with centre `center` and half extents `half_size`.
    pub fn new(center: Point, half_size: Point) -> (r: Aabb)
        requires
            Aabb::fits(center, half_size),
        ensures
            r == Aabb::from_center_spec(center, half_size),
            r.wf(),
            r.min.x == center.x - half_size.x,
            r.min.y == center.y - half_size.y,
            r.max.x == center.x + half_size.x,
            r.max.y == center.y + half_size.y,
    {
        Aabb {
            min: Point { x: center.x - half_size.x, y: center.y - half_size.y },
            max: Point { x: center.x + half_size.x, y: center.y + half_size.y },
        }
    }

    /// The point of the box nearest to `p`: each coordinate clamped on its own.
    pub open spec fn closest_point_spec(&self, p: Point) -> (int, int) {
        (
            clamp_spec(p.x as int, self.min.x as int, self.max.x as int),
            clamp_spec(p.y as int, self.min.y as int, self.max.y as int),
        )
    }

    /// The point of the box nearest to `p`.
    pub fn closest_point(&self, p: Point) -> (r: Point)
        requires
            self.wf(),
        ensures
            (r.x as int, r.y as int) == self.closest_point_spec(p),
    {
        Point { x: clamp(p.x, self.min.x, self.max.x), y: clamp(p.y, self.min.y, self.max.y) }
    }

    /// `p` lies strictly inside the box.
    pub open spec fn strictly_contains(&self, p: Point) -> bool {
        self.min.x < p.x < self.max.x && self.min.y < p.y < self.max.y
    }
}

/// A circle, given by its centre and radius.
#[derive(Clone, Copy, Debug, PartialEq, Eq, Structural)]
pub struct BoundingCircle {
    pub center: Point,
    pub radius: i32,
}

/// The square of the distance between `(ax, ay)` and `(bx, by)`.
pub open spec fn distance_squared(ax: int, ay: int, bx: int, by: int) -> int {
    (ax - bx) * (ax - bx) + (ay - by) * (ay - by)
}

impl BoundingCircle {
    /// The radius is not negative.
    pub open spec fn wf(&self) -> bool {
        0 <= self.radius
    }

    /// The circle meets the box: the box's point nearest to the centre is no
    /// farther from the centre than the radius.
    pub open spec fn intersects_spec(&self, b: Aabb) -> bool {
        let c = b.closest_point_spec(self.center);
        distance_squared(self.center.x as int, self.center.y as int, c.0, c.1)
            <= self.radius * self.radius
    }

    /// Whether the circle meets the box.
    pub fn intersects(&self, b: &Aabb) -> (r: bool)
        requires
            b.wf(),
        ensures
            r == self.intersects_spec(*b),
    {
        let c = b.closest_point(self.center);
        let dx: i128 = self.center.x as i128 - c.x as i128;
        let dy: i128 = self.center.y as i128 - c.y as i128;
        let r: i128 = self.radius as i128;
        proof {
            lemma_square_bound(dx as int);
            lemma_square_bound(dy as int);
            lemma_square_bound(r as int);
        }
        let dx2: i128 = dx * dx;
        let dy2: i128 = dy * dy;
        let r2: i128 = r * r;
        dx2 + dy2 <= r2
    }
}

/// The square of a number within `2^32` of zero is at most `2^64`.
proof fn lemma_square_bound(v: int)
    requires
        -0x1_0000_0000 <= v <= 0x1_0000_0000,
    ensures
        0 <= v * v <= 0x1_0000_0000_0000_0000,
{
    assert(0 <= v * v <= 0x1_0000_0000_0000_0000) by (nonlinear_arith)
        requires
            -0x1_0000_0000 <= v <= 0x1_0000_0000,
    ;
}

/// A circle whose centre lies strictly inside a box meets the box.
pub proof fn lemma_center_inside_intersects(c: BoundingCircle, b: Aabb)
    requires
        c.wf(),
        b.wf(),
        b.strictly_contains(c.center),
    ensures
        c.intersects_spec(b),
{
    let p = b.closest_point_spec(c.center);
    assert(p.0 == c.center.x && p.1 == c.center.y);
    assert(c.radius * c.radius >= 0) by (nonlinear_arith);
    assert(distance_squared(c.center.x as int, c.center.y as int, p.0, p.1) == 0);
}

/// A circle whose distance to the nearest point of a box exceeds its radius
/// does not meet the box.
pub proof fn lemma_far_circle_misses(c: BoundingCircle, b: Aabb)
    requires
        ({
            let p = b.closest_point_spec(c.center);
            distance_squared(c.center.x as int, c.center.y as int, p.0, p.1) > c.radius
                * c.radius
        }),
    ensures
        !c.intersects_spec(b),
{
}

} // verus!
