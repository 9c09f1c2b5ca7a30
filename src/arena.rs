//! The play field: four walls around the origin, two of them goals.
use vstd::prelude::*;
use crate::collision::{Collider, Goal};
use crate::geometry::{Aabb, Point};

verus! {

/// The field's extents. The walls are centred on the lines `x = ±half_width`
/// and `y = ±half_height`.
#[derive(Clone, Copy, Debug, PartialEq, Eq, Structural)]
pub struct Arena {
    pub half_width: i32,
    pub half_height: i32,
    pub wall_half_thickness: i32,
}

impl Arena {
    /// No extent is negative, and every wall's box can be held.
    pub open spec fn wf(&self) -> bool {
        &&& 0 <= self.half_width
        &&& 0 <= self.half_height
        &&& 0 <= self.wall_half_thickness
        &&& self.half_width + self.wall_half_thickness <= i32::MAX
        &&& self.half_height + self.wall_half_thickness <= i32::MAX
    }

    /// The lowest centre height of a paddle with half height `paddle_half_height`.
    pub open spec fn bottom_bound(&self, paddle_half_height: int) -> int {
        -self.half_height + self.wall_half_thickness + paddle_half_height
    }

    /// The highest centre height of a paddle with half height `paddle_half_height`.
    pub open spec fn top_bound(&self, paddle_half_height: int) -> int {
        self.half_height - self.wall_half_thickness - paddle_half_height
    }

    /// The range of centre heights open to a paddle of half height
    /// `paddle_half_height`, as `(bottom, top)`.
    pub fn paddle_bounds(&self, paddle_half_height: i32) -> (r: (i32, i32))
        requires
            self.wf(),
            0 <= paddle_half_height,
            self.bottom_bound(paddle_half_height as int) <= self.top_bound(paddle_half_height as int),
        ensures
            r.0 == self.bottom_bound(paddle_half_height as int),
            r.1 == self.top_bound(paddle_half_height as int),
    {
        (
            -self.half_height + self.wall_half_thickness + paddle_half_height,
            self.half_height - self.wall_half_thickness - paddle_half_height,
        )
    }
}

/// One of the four walls.
#[derive(Clone, Copy, Debug, PartialEq, Eq, Structural)]
pub enum WallLocation {
    Left,
    Right,
    Bottom,
    Top,
}

impl WallLocation {
    /// The centre of the wall: on the line of its side, level with the origin.
    pub open spec fn position_spec(&self, arena: Arena) -> Point {
        match self {
            WallLocation::Left => Point { x: (-arena.half_width) as i32, y: 0 },
            WallLocation::Right => Point { x: arena.half_width, y: 0 },
            WallLocation::Bottom => Point { x: 0, y: (-arena.half_height) as i32 },
            WallLocation::Top => Point { x: 0, y: arena.half_height },
        }
    }

    /// The centre of the wall.
    pub fn position(&self, arena: &Arena) -> (r: Point)
        requires
            arena.wf(),
        ensures
            r == self.position_spec(*arena),
    {
        match self {
            WallLocation::Left => Point { x: -arena.half_width, y: 0 },
            WallLocation::Right => Point { x: arena.half_width, y: 0 },
            WallLocation::Bottom => Point { x: 0, y: -arena.half_height },
            WallLocation::Top => Point { x: 0, y: arena.half_height },
        }
    }

    /// Side walls reach past the corners by the wall's half thickness, and so
    /// do the top and bottom walls.
    pub open spec fn half_size_spec(&self, arena: Arena) -> Point {
        match self {
            WallLocation::Left | WallLocation::Right => Point {
                x: arena.wall_half_thickness,
                y: (arena.half_height + arena.wall_half_thickness) as i32,
            },
            WallLocation::Bottom | WallLocation::Top => Point {
                x: (arena.half_width + arena.wall_half_thickness) as i32,
                y: arena.wall_half_thickness,
            },
        }
    }

    /// The half extents of the wall.
    pub fn half_size(&self, arena: &Arena) -> (r: Point)
        requires
            arena.wf(),
        ensures
            r == self.half_size_spec(*arena),
    {
        match self {
            WallLocation::Left | WallLocation::Right => Point {
                x: arena.wall_half_thickness,
                y: arena.half_height + arena.wall_half_thickness,
            },
            WallLocation::Bottom | WallLocation::Top => Point {
                x: arena.half_width + arena.wall_half_thickness,
                y: arena.wall_half_thickness,
            },
        }
    }

    /// The left wall is the player's goal, the right one the computer's.
    pub open spec fn goal_spec(&self) -> Goal {
        match self {
            WallLocation::Left => Goal::Player,
            WallLocation::Right => Goal::Computer,
            _ => Goal::Plain,
        }
    }

    /// The goal tag of the wall.
    pub fn goal(&self) -> (r: Goal)
        ensures
            r == self.goal_spec(),
    {
        match self {
            WallLocation::Left => Goal::Player,
            WallLocation::Right => Goal::Computer,
            _ => Goal::Plain,
        }
    }

    /// The wall's box, tagged with its goal.
    pub open spec fn collider_spec(&self, arena: Arena) -> Collider {
        Collider {
            aabb: Aabb::from_center_spec(self.position_spec(arena), self.half_size_spec(arena)),
            goal: self.goal_spec(),
        }
    }

    /// The wall as a collider.
    pub fn collider(&self, arena: &Arena) -> (r: Collider)
        requires
            arena.wf(),
        ensures
            r == self.collider_spec(*arena),
            r.aabb.wf(),
    {
        let center = self.position(arena);
        let half_size = self.half_size(arena);
        Collider { aabb: Aabb::new(center, half_size), goal: self.goal() }
    }
}

} // verus!
