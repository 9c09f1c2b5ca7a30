//! Detecting the ball against colliders, and bouncing it off them.
use vstd::prelude::*;
use crate::geometry::{Aabb, BoundingCircle, Point};

verus! {

/// The side of a collider that the ball struck.
#[derive(Clone, Copy, Debug, PartialEq, Eq, Structural)]
pub enum Collision {
    Left,
    Right,
    Top,
    Bottom,
}

/// Whether a collider is a goal, and whose.
#[derive(Clone, Copy, Debug, PartialEq, Eq, Structural)]
pub enum Goal {
    /// An ordinary wall or a paddle.
    Plain,
    /// The player's goal: a hit costs the player a point.
    Player,
    /// The computer's goal: a hit earns the player a point.
    Computer,
}

/// A box that the ball bounces off.
#[derive(Clone, Copy, Debug, PartialEq, Eq, Structural)]
pub struct Collider {
    pub aabb: Aabb,
    pub goal: Goal,
}

/// The record of one collision in one tick.
#[derive(Clone, Copy, Debug, PartialEq, Eq, Structural)]
pub struct CollisionSignal {
    /// The position of the collider in the list it was checked in.
    pub collider: usize,
    pub side: Collision,
    pub goal: Goal,
}

/// The absolute value of `v`.
pub open spec fn abs(v: int) -> int {
    if v < 0 {
        -v
    } else {
        v
    }
}

/// The struck side, from the offset of the ball's centre to the collider's
/// nearest point: horizontal only where it is strictly the larger.
pub open spec fn side_of_offset(ox: int, oy: int) -> Collision {
    if abs(ox) > abs(oy) {
        if ox < 0 {
            Collision::Left
        } else {
            Collision::Right
        }
    } else if oy > 0 {
        Collision::Top
    } else {
        Collision::Bottom
    }
}

/// The side of `b` that `ball` strikes, or `None` where they do not meet.
pub open spec fn ball_collision_spec(ball: BoundingCircle, b: Aabb) -> Option<Collision> {
    if !ball.intersects_spec(b) {
        None
    } else {
        let c = b.closest_point_spec(ball.center);
        Some(side_of_offset(ball.center.x - c.0, ball.center.y - c.1))
    }
}

/// The side of `b` that `ball` strikes, if they meet.
pub fn ball_collision(ball: &BoundingCircle, b: &Aabb) -> (r: Option<Collision>)
    requires
        b.wf(),
    ensures
        r == ball_collision_spec(*ball, *b),
{
    if !ball.intersects(b) {
        return None;
    }
    let closest = b.closest_point(ball.center);
    let ox: i64 = ball.center.x as i64 - closest.x as i64;
    let oy: i64 = ball.center.y as i64 - closest.y as i64;
    let ax: i64 = if ox < 0 { -ox } else { ox };
    let ay: i64 = if oy < 0 { -oy } else { oy };
    let side = if ax > ay {
        if ox < 0 {
            Collision::Left
        } else {
            Collision::Right
        }
    } else if oy > 0 {
        Collision::Top
    } else {
        Collision::Bottom
    };
    Some(side)
}

/// Both components can be negated in an `i32`.
pub open spec fn velocity_wf(v: Point) -> bool {
    v.x > i32::MIN && v.y > i32::MIN
}

/// The velocity after striking `side`: the component that points into the
/// surface is negated, any other velocity is kept.
pub open spec fn reflect_spec(v: Point, side: Collision) -> Point {
    match side {
        Collision::Left => if v.x > 0 { Point { x: (-v.x) as i32, y: v.y } } else { v },
        Collision::Right => if v.x < 0 { Point { x: (-v.x) as i32, y: v.y } } else { v },
        Collision::Top => if v.y < 0 { Point { x: v.x, y: (-v.y) as i32 } } else { v },
        Collision::Bottom => if v.y > 0 { Point { x: v.x, y: (-v.y) as i32 } } else { v },
    }
}

/// The velocity after striking `side`.
pub fn reflect(v: Point, side: Collision) -> (r: Point)
    requires
        velocity_wf(v),
    ensures
        r == reflect_spec(v, side),
        velocity_wf(r),
{
    let mut reflect_x = false;
    let mut reflect_y = false;
    match side {
        Collision::Left => reflect_x = v.x > 0,
        Collision::Right => reflect_x = v.x < 0,
        Collision::Top => reflect_y = v.y < 0,
        Collision::Bottom => reflect_y = v.y > 0,
    }
    let mut r = v;
    if reflect_x {
        r.x = -v.x;
    }
    if reflect_y {
        r.y = -v.y;
    }
    r
}

/// The ball's velocity after it is checked against each collider of `cs` in
/// turn, starting from `v`.
pub open spec fn velocity_after(ball: BoundingCircle, v: Point, cs: Seq<Collider>) -> Point
    decreases cs.len(),
{
    if cs.len() == 0 {
        v
    } else {
        let before = velocity_after(ball, v, cs.drop_last());
        match ball_collision_spec(ball, cs.last().aabb) {
            Some(side) => reflect_spec(before, side),
            None => before,
        }
    }
}

/// One signal for each collider of `cs` that the ball meets, in order.
pub open spec fn signals_of(ball: BoundingCircle, cs: Seq<Collider>) -> Seq<CollisionSignal>
    decreases cs.len(),
{
    if cs.len() == 0 {
        seq![]
    } else {
        let before = signals_of(ball, cs.drop_last());
        match ball_collision_spec(ball, cs.last().aabb) {
            Some(side) => before.push(
                CollisionSignal { collider: (cs.len() - 1) as usize, side, goal: cs.last().goal },
            ),
            None => before,
        }
    }
}

/// There is at most one signal per collider.
pub proof fn lemma_signals_len(ball: BoundingCircle, cs: Seq<Collider>)
    ensures
        signals_of(ball, cs).len() <= cs.len(),
    decreases cs.len(),
{
    if cs.len() > 0 {
        lemma_signals_len(ball, cs.drop_last());
    }
}

/// Every collider's box has ordered corners.
pub open spec fn colliders_wf(cs: Seq<Collider>) -> bool {
    forall|i: int| 0 <= i < cs.len() ==> (#[trigger] cs[i]).aabb.wf()
}

/// Checks the ball against each collider in turn, bouncing it off those it
/// meets, and returns the new velocity with one signal per collision.
pub fn resolve_collisions(ball: &BoundingCircle, velocity: Point, colliders: &Vec<Collider>) -> (r: (
    Point,
    Vec<CollisionSignal>,
))
    requires
        velocity_wf(velocity),
        colliders_wf(colliders@),
    ensures
        r.0 == velocity_after(*ball, velocity, colliders@),
        r.1@ == signals_of(*ball, colliders@),
        velocity_wf(r.0),
{
    let mut v = velocity;
    let mut signals: Vec<CollisionSignal> = Vec::new();
    let mut i: usize = 0;
    while i < colliders.len()
        invariant
            i <= colliders@.len(),
            colliders_wf(colliders@),
            velocity_wf(v),
            v == velocity_after(*ball, velocity, colliders@.subrange(0, i as int)),
            signals@ == signals_of(*ball, colliders@.subrange(0, i as int)),
        decreases colliders@.len() - i,
    {
        let c = colliders[i];
        assert(colliders@.subrange(0, i as int + 1).drop_last() =~= colliders@.subrange(0, i as int));
        assert(colliders@.subrange(0, i as int + 1).last() == c);
        assert(c.aabb.wf());
        match ball_collision(ball, &c.aabb) {
            Some(side) => {
                v = reflect(v, side);
                signals.push(CollisionSignal { collider: i, side, goal: c.goal });
            },
            None => {},
        }
        i = i + 1;
    }
    assert(colliders@.subrange(0, colliders@.len() as int) =~= colliders@);
    (v, signals)
}

/// The square of a velocity's magnitude.
pub open spec fn speed_squared(v: Point) -> int {
    v.x * v.x + v.y * v.y
}

/// Striking a surface while moving into it negates that one component;
/// striking it again while already moving away changes nothing.
pub proof fn lemma_left_reflection(v: Point)
    requires
        velocity_wf(v),
        v.x > 0,
    ensures
        reflect_spec(v, Collision::Left) == (Point { x: (-v.x) as i32, y: v.y }),
        reflect_spec(v, Collision::Left).x == -v.x,
        reflect_spec(reflect_spec(v, Collision::Left), Collision::Left) == reflect_spec(
            v,
            Collision::Left,
        ),
{
}

/// A reflection keeps a velocity's magnitude, and keeps it negatable.
pub proof fn lemma_reflect_keeps_speed(v: Point, side: Collision)
    requires
        velocity_wf(v),
    ensures
        speed_squared(reflect_spec(v, side)) == speed_squared(v),
        velocity_wf(reflect_spec(v, side)),
{
    assert((-v.x) * (-v.x) == v.x * v.x) by (nonlinear_arith);
    assert((-v.y) * (-v.y) == v.y * v.y) by (nonlinear_arith);
}

/// The ball's speed is the same after any sequence of collisions.
pub proof fn lemma_speed_invariant(ball: BoundingCircle, v: Point, cs: Seq<Collider>)
    requires
        velocity_wf(v),
    ensures
        speed_squared(velocity_after(ball, v, cs)) == speed_squared(v),
        velocity_wf(velocity_after(ball, v, cs)),
    decreases cs.len(),
{
    if cs.len() > 0 {
        lemma_speed_invariant(ball, v, cs.drop_last());
        let before = velocity_after(ball, v, cs.drop_last());
        match ball_collision_spec(ball, cs.last().aabb) {
            Some(side) => lemma_reflect_keeps_speed(before, side),
            None => {},
        }
    }
}

} // verus!
