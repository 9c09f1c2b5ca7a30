//! Paddles and the controllers that move them.
//!
//! A direction is counted in halves of the paddle speed: `1` moves a paddle
//! up at half its speed, `-2` down at full speed.
use vstd::prelude::*;
use crate::geometry::{clamp_spec, Point};

verus! {

/// Which side controls a paddle.
#[derive(Clone, Copy, Debug, PartialEq, Eq, Structural)]
pub enum Role {
    Player,
    Computer,
}

/// The player's keys each move the paddle by this many half speeds.
pub const PLAYER_SENSITIVITY: i32 = 1;

/// The computer always moves its paddle by this many half speeds.
pub const COMPUTER_SENSITIVITY: i32 = 1;

/// Up adds the sensitivity, down takes it away; both together cancel.
pub open spec fn player_direction_spec(down: bool, up: bool) -> int {
    (if up { PLAYER_SENSITIVITY as int } else { 0 }) - (if down { PLAYER_SENSITIVITY as int } else { 0 })
}

/// The direction that the player's keys ask for.
pub fn player_direction(down: bool, up: bool) -> (r: i32)
    ensures
        r == player_direction_spec(down, up),
{
    let mut direction: i32 = 0;
    if down {
        direction = direction - PLAYER_SENSITIVITY;
    }
    if up {
        direction = direction + PLAYER_SENSITIVITY;
    }
    direction
}

/// Down while the ball is below the paddle, up otherwise (ties go up).
pub open spec fn computer_direction_spec(ball_y: int, paddle_y: int) -> int {
    if ball_y < paddle_y {
        -COMPUTER_SENSITIVITY
    } else {
        COMPUTER_SENSITIVITY as int
    }
}

/// The direction in which the computer moves its paddle toward the ball.
pub fn computer_direction(ball_y: i32, paddle_y: i32) -> (r: i32)
    ensures
        r == computer_direction_spec(ball_y as int, paddle_y as int),
{
    if ball_y < paddle_y {
        -COMPUTER_SENSITIVITY
    } else {
        COMPUTER_SENSITIVITY
    }
}

/// Half of `v`, rounded toward zero.
pub open spec fn half_toward_zero(v: int) -> int {
    if v >= 0 {
        v / 2
    } else {
        -((-v) / 2)
    }
}

/// How far a paddle moves in `dt` at `direction` half speeds.
pub open spec fn step_spec(direction: int, speed: int, dt: int) -> int {
    half_toward_zero(direction * speed * dt)
}

/// The new height of a paddle: moved by its step, then held in `[bottom, top]`.
pub open spec fn reposition_spec(y: int, direction: int, speed: int, dt: int, bottom: int, top: int) -> int {
    clamp_spec(y + step_spec(direction, speed, dt), bottom, top)
}

/// A product of two `i32` values and a `u32` lies within `2^94` of zero.
proof fn lemma_step_bound(direction: int, speed: int, dt: int)
    requires
        i32::MIN <= direction <= i32::MAX,
        i32::MIN <= speed <= i32::MAX,
        0 <= dt <= u32::MAX,
    ensures
        -0x4000_0000_0000_0000 <= direction * speed <= 0x4000_0000_0000_0000,
        -0x4000_0000_0000_0000_0000_0000 <= direction * speed * dt <= 0x4000_0000_0000_0000_0000_0000,
{
    assert(-0x4000_0000_0000_0000 <= direction * speed <= 0x4000_0000_0000_0000) by (nonlinear_arith)
        requires
            -0x8000_0000 <= direction <= 0x8000_0000,
            -0x8000_0000 <= speed <= 0x8000_0000,
    ;
    let ds = direction * speed;
    assert(-0x4000_0000_0000_0000_0000_0000 <= ds * dt <= 0x4000_0000_0000_0000_0000_0000) by (nonlinear_arith)
        requires
            -0x4000_0000_0000_0000 <= ds <= 0x4000_0000_0000_0000,
            0 <= dt <= 0x1_0000_0000,
    ;
}

/// The height that a paddle at `y` reaches after moving at `direction` half
/// speeds for `dt`, held in `[bottom, top]`.
pub fn reposition(y: i32, direction: i32, speed: i32, dt: u32, bottom: i32, top: i32) -> (r: i32)
    requires
        bottom <= top,
    ensures
        r == reposition_spec(y as int, direction as int, speed as int, dt as int, bottom as int, top as int),
        bottom <= r <= top,
{
    proof {
        lemma_step_bound(direction as int, speed as int, dt as int);
    }
    let travel: i128 = direction as i128 * speed as i128 * dt as i128;
    let step: i128 = if travel >= 0 {
        travel / 2
    } else {
        -((-travel) / 2)
    };
    let candidate: i128 = y as i128 + step;
    if candidate < bottom as i128 {
        bottom
    } else if candidate > top as i128 {
        top
    } else {
        candidate as i32
    }
}

/// A paddle: a box that only moves up and down.
#[derive(Clone, Copy, Debug, PartialEq, Eq, Structural)]
pub struct Paddle {
    pub position: Point,
    pub half_size: Point,
    pub role: Role,
    /// Full speed, in units per second.
    pub speed: i32,
}

impl Paddle {
    /// Moves the paddle at `direction` half speeds for `dt`, keeping its
    /// height in `[bottom, top]`.
    pub fn reposition(&mut self, direction: i32, dt: u32, bottom: i32, top: i32)
        requires
            bottom <= top,
        ensures
            final(self).position.y == reposition_spec(
                old(self).position.y as int,
                direction as int,
                old(self).speed as int,
                dt as int,
                bottom as int,
                top as int,
            ),
            bottom <= final(self).position.y <= top,
            final(self).position.x == old(self).position.x,
            final(self).half_size == old(self).half_size,
            final(self).role == old(self).role,
            final(self).speed == old(self).speed,
    {
        self.position.y = reposition(self.position.y, direction, self.speed, dt, bottom, top);
    }
}

/// The height of a paddle after a sequence of moves, each a direction and a
/// time step.
pub open spec fn height_after_moves(y: int, speed: int, moves: Seq<(int, int)>, bottom: int, top: int) -> int
    decreases moves.len(),
{
    if moves.len() == 0 {
        y
    } else {
        let m = moves.last();
        reposition_spec(height_after_moves(y, speed, moves.drop_last(), bottom, top), m.0, speed, m.1, bottom, top)
    }
}

/// A paddle that starts in `[bottom, top]` stays there, whatever the moves.
pub proof fn lemma_paddle_stays_in_bounds(y: int, speed: int, moves: Seq<(int, int)>, bottom: int, top: int)
    requires
        bottom <= y <= top,
        forall|i: int| 0 <= i < moves.len() ==> moves[i].1 >= 0,
    ensures
        bottom <= height_after_moves(y, speed, moves, bottom, top) <= top,
    decreases moves.len(),
{
    if moves.len() > 0 {
        lemma_paddle_stays_in_bounds(y, speed, moves.drop_last(), bottom, top);
    }
}

/// A step of no time leaves a paddle that lies in `[bottom, top]` where it was.
pub proof fn lemma_reposition_zero_dt(y: int, direction: int, speed: int, bottom: int, top: int)
    requires
        bottom <= y <= top,
    ensures
        reposition_spec(y, direction, speed, 0, bottom, top) == y,
{
    assert(direction * speed * 0 == 0) by (nonlinear_arith);
}

} // verus!
