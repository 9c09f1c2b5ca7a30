//! The whole simulation: arena, paddles, ball and score, advanced one fixed
//! tick at a time.
use vstd::prelude::*;
use crate::arena::{Arena, WallLocation};
use crate::collision::{
    colliders_wf, lemma_signals_len, lemma_speed_invariant, resolve_collisions, speed_squared, signals_of, velocity_after, velocity_wf, Collider,
    CollisionSignal, Goal,
};
use crate::geometry::{Aabb, BoundingCircle, Point};
use crate::motion::{integrate, integrate_fits, integrate_spec, lemma_integrate_zero_dt};
use crate::paddle::{
    computer_direction, computer_direction_spec, lemma_reposition_zero_dt, player_direction,
    player_direction_spec, reposition_spec, Paddle, Role,
};
use crate::score::{score_after, update_score};

verus! {

pub const ARENA_HALF_WIDTH: i32 = 350_000;
pub const ARENA_HALF_HEIGHT: i32 = 450_000;
pub const WALL_HALF_THICKNESS: i32 = 5_000;
pub const PADDLE_HALF_WIDTH: i32 = 10_000;
pub const PADDLE_HALF_HEIGHT: i32 = 60_000;
/// Units per second.
pub const PADDLE_SPEED: i32 = 500;
/// Distance from a side wall's centre line to the paddle in front of it.
pub const PADDLE_X_MARGIN: i32 = 10_000;
pub const BALL_RADIUS: i32 = 15_000;
/// The starting velocity: a speed of 400 units per second toward the lower
/// right, each component rounded to a whole number.
pub const BALL_START_VX: i32 = 283;
pub const BALL_START_VY: i32 = -283;

/// The number of colliders that a tick checks the ball against.
pub const COLLIDER_COUNT: usize = 6;

/// The ball.
#[derive(Clone, Copy, Debug, PartialEq, Eq, Structural)]
pub struct Ball {
    pub position: Point,
    pub radius: i32,
    /// Units per second on each axis.
    pub velocity: Point,
}

impl Ball {
    /// A circle of the ball's radius around its position.
    pub open spec fn bounds_spec(&self) -> BoundingCircle {
        BoundingCircle { center: self.position, radius: self.radius }
    }

    /// The ball's outline.
    pub fn bounds(&self) -> (r: BoundingCircle)
        ensures
            r == self.bounds_spec(),
    {
        BoundingCircle { center: self.position, radius: self.radius }
    }
}

/// The constants a match is set up from.
#[derive(Clone, Copy, Debug, PartialEq, Eq, Structural)]
pub struct GameConfig {
    pub arena: Arena,
    pub paddle_half_size: Point,
    pub paddle_speed: i32,
    pub paddle_x_margin: i32,
    pub ball_radius: i32,
    pub ball_velocity: Point,
}

/// A paddle lies within the arena's bounds for it, and its box can be held.
pub open spec fn paddle_wf(p: Paddle, arena: Arena) -> bool {
    &&& 0 <= p.half_size.x
    &&& 0 <= p.half_size.y
    &&& i32::MIN <= p.position.x - p.half_size.x
    &&& p.position.x + p.half_size.x <= i32::MAX
    &&& arena.bottom_bound(p.half_size.y as int) <= p.position.y
    &&& p.position.y <= arena.top_bound(p.half_size.y as int)
}

impl GameConfig {
    /// The player's paddle stands this far right of the centre.
    pub open spec fn paddle_x(&self) -> int {
        self.paddle_x_margin - self.arena.half_width
    }

    /// The configuration describes a match that can be played.
    pub open spec fn valid(&self) -> bool {
        &&& self.arena.wf()
        &&& 0 <= self.paddle_half_size.x
        &&& 0 <= self.paddle_half_size.y
        &&& self.arena.bottom_bound(self.paddle_half_size.y as int) <= self.arena.top_bound(
            self.paddle_half_size.y as int,
        )
        &&& i32::MIN < self.paddle_x() - self.paddle_half_size.x
        &&& self.paddle_x() + self.paddle_half_size.x < i32::MAX
        &&& i32::MIN < -self.paddle_x() - self.paddle_half_size.x
        &&& -self.paddle_x() + self.paddle_half_size.x < i32::MAX
        &&& 0 <= self.ball_radius
        &&& velocity_wf(self.ball_velocity)
    }

    /// The configuration of the standard match.
    pub open spec fn standard_spec() -> GameConfig {
        GameConfig {
            arena: Arena {
                half_width: ARENA_HALF_WIDTH,
                half_height: ARENA_HALF_HEIGHT,
                wall_half_thickness: WALL_HALF_THICKNESS,
            },
            paddle_half_size: Point { x: PADDLE_HALF_WIDTH, y: PADDLE_HALF_HEIGHT },
            paddle_speed: PADDLE_SPEED,
            paddle_x_margin: PADDLE_X_MARGIN,
            ball_radius: BALL_RADIUS,
            ball_velocity: Point { x: BALL_START_VX, y: BALL_START_VY },
        }
    }

    /// The configuration of the standard match.
    pub fn standard() -> (r: GameConfig)
        ensures
            r == GameConfig::standard_spec(),
            r.valid(),
    {
        GameConfig {
            arena: Arena {
                half_width: ARENA_HALF_WIDTH,
                half_height: ARENA_HALF_HEIGHT,
                wall_half_thickness: WALL_HALF_THICKNESS,
            },
            paddle_half_size: Point { x: PADDLE_HALF_WIDTH, y: PADDLE_HALF_HEIGHT },
            paddle_speed: PADDLE_SPEED,
            paddle_x_margin: PADDLE_X_MARGIN,
            ball_radius: BALL_RADIUS,
            ball_velocity: Point { x: BALL_START_VX, y: BALL_START_VY },
        }
    }
}

/// The state of a match.
#[derive(Clone, Copy, Debug, PartialEq, Eq, Structural)]
pub struct Game {
    pub arena: Arena,
    pub player: Paddle,
    pub computer: Paddle,
    pub ball: Ball,
    pub score: i64,
}

impl Game {
    /// The state holds together: paddles in their bounds, a ball whose
    /// velocity can be reflected.
    pub open spec fn wf(&self) -> bool {
        &&& self.arena.wf()
        &&& paddle_wf(self.player, self.arena)
        &&& paddle_wf(self.computer, self.arena)
        &&& self.player.role == Role::Player
        &&& self.computer.role == Role::Computer
        &&& 0 <= self.ball.radius
        &&& velocity_wf(self.ball.velocity)
    }

    /// The match that `config` describes, at its start: paddles centred
    /// vertically in front of the side walls, the ball at the origin, no score.
    pub open spec fn start_spec(config: GameConfig) -> Game {
        let paddle = Paddle {
            position: Point { x: config.paddle_x() as i32, y: 0 },
            half_size: config.paddle_half_size,
            role: Role::Player,
            speed: config.paddle_speed,
        };
        Game {
            arena: config.arena,
            player: paddle,
            computer: Paddle {
                position: Point { x: (-config.paddle_x()) as i32, y: 0 },
                role: Role::Computer,
                ..paddle
            },
            ball: Ball {
                position: Point { x: 0, y: 0 },
                radius: config.ball_radius,
                velocity: config.ball_velocity,
            },
            score: 0,
        }
    }

    /// Sets up the match that `config` describes, or `None` where it cannot
    /// be played.
    pub fn from_config(config: &GameConfig) -> (r: Option<Game>)
        ensures
            r.is_some() <==> config.valid(),
            r.is_some() ==> r.unwrap() == Game::start_spec(*config) && r.unwrap().wf(),
    {
        let arena = config.arena;
        if !(0 <= arena.half_width && 0 <= arena.half_height && 0 <= arena.wall_half_thickness
            && arena.half_width as i64 + arena.wall_half_thickness as i64 <= i32::MAX as i64
            && arena.half_height as i64 + arena.wall_half_thickness as i64 <= i32::MAX as i64) {
            return None;
        }
        let half = config.paddle_half_size;
        if half.x < 0 || half.y < 0 {
            return None;
        }
        let bottom: i64 = -(arena.half_height as i64) + arena.wall_half_thickness as i64
            + half.y as i64;
        let top: i64 = arena.half_height as i64 - arena.wall_half_thickness as i64 - half.y as i64;
        if bottom > top {
            return None;
        }
        let x: i64 = config.paddle_x_margin as i64 - arena.half_width as i64;
        let lo: i64 = i32::MIN as i64;
        let hi: i64 = i32::MAX as i64;
        let hx: i64 = half.x as i64;
        if !(lo < x - hx && x + hx < hi && lo < -x - hx && -x + hx < hi) {
            return None;
        }
        if config.ball_radius < 0 || config.ball_velocity.x == i32::MIN
            || config.ball_velocity.y == i32::MIN {
            return None;
        }
        let paddle = Paddle {
            position: Point { x: x as i32, y: 0 },
            half_size: half,
            role: Role::Player,
            speed: config.paddle_speed,
        };
        Some(
            Game {
                arena,
                player: paddle,
                computer: Paddle {
                    position: Point { x: (-x) as i32, y: 0 },
                    role: Role::Computer,
                    ..paddle
                },
                ball: Ball {
                    position: Point { x: 0, y: 0 },
                    radius: config.ball_radius,
                    velocity: config.ball_velocity,
                },
                score: 0,
            },
        )
    }

    /// The standard match at its start.
    pub fn new() -> (r: Game)
        ensures
            r == Game::start_spec(GameConfig::standard_spec()),
            r.wf(),
    {
        let config = GameConfig::standard();
        Game::from_config(&config).unwrap()
    }

    /// The colliders of a tick, in the order they are checked: the player's
    /// paddle, the computer's, then the left, right, bottom and top walls.
    pub open spec fn colliders_spec(&self) -> Seq<Collider> {
        seq![
            Collider {
                aabb: Aabb::from_center_spec(self.player.position, self.player.half_size),
                goal: Goal::Plain,
            },
            Collider {
                aabb: Aabb::from_center_spec(self.computer.position, self.computer.half_size),
                goal: Goal::Plain,
            },
            WallLocation::Left.collider_spec(self.arena),
            WallLocation::Right.collider_spec(self.arena),
            WallLocation::Bottom.collider_spec(self.arena),
            WallLocation::Top.collider_spec(self.arena),
        ]
    }

    /// The colliders that the ball is checked against.
    pub fn colliders(&self) -> (r: Vec<Collider>)
        requires
            self.wf(),
        ensures
            r@ == self.colliders_spec(),
            r@.len() == COLLIDER_COUNT,
            colliders_wf(r@),
    {
        let mut r: Vec<Collider> = Vec::new();
        r.push(
            Collider { aabb: Aabb::new(self.player.position, self.player.half_size), goal: Goal::Plain },
        );
        r.push(
            Collider {
                aabb: Aabb::new(self.computer.position, self.computer.half_size),
                goal: Goal::Plain,
            },
        );
        r.push(WallLocation::Left.collider(&self.arena));
        r.push(WallLocation::Right.collider(&self.arena));
        r.push(WallLocation::Bottom.collider(&self.arena));
        r.push(WallLocation::Top.collider(&self.arena));
        assert(r@ =~= self.colliders_spec());
        r
    }

    /// The state once both controllers have moved their paddles. The computer
    /// heads for the ball's height at the start of the tick.
    pub open spec fn after_controls(&self, dt: u32, down: bool, up: bool) -> Game {
        let a = self.arena;
        let p = self.player;
        let c = self.computer;
        let py = reposition_spec(
            p.position.y as int,
            player_direction_spec(down, up),
            p.speed as int,
            dt as int,
            a.bottom_bound(p.half_size.y as int),
            a.top_bound(p.half_size.y as int),
        );
        let cy = reposition_spec(
            c.position.y as int,
            computer_direction_spec(self.ball.position.y as int, c.position.y as int),
            c.speed as int,
            dt as int,
            a.bottom_bound(c.half_size.y as int),
            a.top_bound(c.half_size.y as int),
        );
        Game {
            player: Paddle { position: Point { y: py as i32, ..p.position }, ..p },
            computer: Paddle { position: Point { y: cy as i32, ..c.position }, ..c },
            ..*self
        }
    }

    /// The state once the ball has moved for `dt`.
    pub open spec fn after_motion(&self, dt: u32) -> Game {
        let p = integrate_spec(self.ball.position, self.ball.velocity, dt);
        Game { ball: Ball { position: Point { x: p.0 as i32, y: p.1 as i32 }, ..self.ball }, ..*self }
    }

    /// The signals of the ball's collisions in this state.
    pub open spec fn signals_spec(&self) -> Seq<CollisionSignal> {
        signals_of(self.ball.bounds_spec(), self.colliders_spec())
    }

    /// The state once the ball has bounced off what it meets and the goals
    /// among them have been scored.
    pub open spec fn after_collisions(&self) -> Game {
        Game {
            ball: Ball {
                velocity: velocity_after(self.ball.bounds_spec(), self.ball.velocity, self.colliders_spec()),
                ..self.ball
            },
            score: score_after(self.score as int, self.signals_spec()) as i64,
            ..*self
        }
    }

    /// The ball's move in this tick, and the score, can be held.
    pub open spec fn can_tick(&self, dt: u32) -> bool {
        &&& integrate_fits(self.ball.position, self.ball.velocity, dt)
        &&& i64::MIN + COLLIDER_COUNT <= self.score <= i64::MAX - COLLIDER_COUNT
    }

    /// Runs one fixed tick of `dt` with the player's keys `down` and `up`:
    /// controllers, then motion, then collisions and score. Returns the
    /// signals of the tick's collisions.
    pub fn tick(&mut self, dt: u32, down: bool, up: bool) -> (r: Vec<CollisionSignal>)
        requires
            old(self).wf(),
            old(self).can_tick(dt),
        ensures
            *final(self) == old(self).after_controls(dt, down, up).after_motion(dt).after_collisions(),
            r@ == old(self).after_controls(dt, down, up).after_motion(dt).signals_spec(),
            final(self).wf(),
    {
        let ghost start = *self;
        let player_dir = player_direction(down, up);
        let computer_dir = computer_direction(self.ball.position.y, self.computer.position.y);
        let (pb, pt) = self.arena.paddle_bounds(self.player.half_size.y);
        self.player.reposition(player_dir, dt, pb, pt);
        let (cb, ct) = self.arena.paddle_bounds(self.computer.half_size.y);
        self.computer.reposition(computer_dir, dt, cb, ct);
        assert(*self == start.after_controls(dt, down, up));
        self.ball.position = integrate(self.ball.position, self.ball.velocity, dt);
        assert(*self == start.after_controls(dt, down, up).after_motion(dt));
        let colliders = self.colliders();
        let ball = self.ball.bounds();
        let (velocity, signals) = resolve_collisions(&ball, self.ball.velocity, &colliders);
        proof {
            lemma_signals_len(ball, colliders@);
        }
        self.ball.velocity = velocity;
        self.score = update_score(self.score, &signals);
        signals
    }

    /// The score.
    pub fn score(&self) -> (r: i64)
        ensures
            r == self.score,
    {
        self.score
    }
}

/// A tick leaves the ball's speed as it was, whatever it struck.
pub proof fn lemma_tick_keeps_speed(g: Game, dt: u32, down: bool, up: bool)
    requires
        g.wf(),
    ensures
        speed_squared(g.after_controls(dt, down, up).after_motion(dt).after_collisions().ball.velocity)
            == speed_squared(g.ball.velocity),
{
    let m = g.after_controls(dt, down, up).after_motion(dt);
    lemma_speed_invariant(m.ball.bounds_spec(), m.ball.velocity, m.colliders_spec());
}

/// A tick of no time moves nothing: neither the ball nor, in a well-formed
/// state, either paddle.
pub proof fn lemma_zero_dt_moves_nothing(g: Game, down: bool, up: bool)
    requires
        g.wf(),
    ensures
        g.after_motion(0) == g,
        g.after_controls(0, down, up) == g,
{
    let a = g.arena;
    lemma_integrate_zero_dt(g.ball.position, g.ball.velocity);
    lemma_reposition_zero_dt(
        g.player.position.y as int,
        player_direction_spec(down, up),
        g.player.speed as int,
        a.bottom_bound(g.player.half_size.y as int),
        a.top_bound(g.player.half_size.y as int),
    );
    lemma_reposition_zero_dt(
        g.computer.position.y as int,
        computer_direction_spec(g.ball.position.y as int, g.computer.position.y as int),
        g.computer.speed as int,
        a.bottom_bound(g.computer.half_size.y as int),
        a.top_bound(g.computer.half_size.y as int),
    );
}


} // verus!
