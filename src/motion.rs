//! Advancing a position by a velocity over a time step.
use vstd::prelude::*;
use crate::geometry::Point;

verus! {

/// `position + velocity * dt`, on each axis.
pub open spec fn integrate_spec(position: Point, velocity: Point, dt: u32) -> (int, int) {
    (position.x + velocity.x * dt, position.y + velocity.y * dt)
}

/// The advanced position can be held in a `Point`.
pub open spec fn integrate_fits(position: Point, velocity: Point, dt: u32) -> bool {
    let p = integrate_spec(position, velocity, dt);
    i32::MIN <= p.0 <= i32::MAX && i32::MIN <= p.1 <= i32::MAX
}

/// A velocity component times a time step lies within `2^63` of zero.
proof fn lemma_displacement_bound(v: int, dt: int)
    requires
        i32::MIN <= v <= i32::MAX,
        0 <= dt <= u32::MAX,
    ensures
        -0x8000_0000_0000_0000 <= v * dt <= 0x8000_0000_0000_0000,
{
    assert(-0x8000_0000_0000_0000 <= v * dt <= 0x8000_0000_0000_0000) by (nonlinear_arith)
        requires
            -0x8000_0000 <= v <= 0x8000_0000,
            0 <= dt <= 0x1_0000_0000,
    ;
}

/// The position reached from `position` after moving at `velocity` for `dt`.
pub fn integrate(position: Point, velocity: Point, dt: u32) -> (r: Point)
    requires
        integrate_fits(position, velocity, dt),
    ensures
        (r.x as int, r.y as int) == integrate_spec(position, velocity, dt),
{
    proof {
        lemma_displacement_bound(velocity.x as int, dt as int);
        lemma_displacement_bound(velocity.y as int, dt as int);
    }
    let dx: i128 = velocity.x as i128 * dt as i128;
    let dy: i128 = velocity.y as i128 * dt as i128;
    let x: i128 = position.x as i128 + dx;
    let y: i128 = position.y as i128 + dy;
    Point { x: x as i32, y: y as i32 }
}

/// A step of no time leaves every position where it was.
pub proof fn lemma_integrate_zero_dt(position: Point, velocity: Point)
    ensures
        integrate_fits(position, velocity, 0),
        integrate_spec(position, velocity, 0) == (position.x as int, position.y as int),
{
}

} // verus!
