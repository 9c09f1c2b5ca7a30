use padler::arena::Arena;
use padler::collision::Goal;
use padler::game::{GameConfig, PADDLE_HALF_HEIGHT};
use padler::geometry::Point;
use padler::paddle::Role;
use padler::Game;

fn p(x: i32, y: i32) -> Point {
    Point { x, y }
}

#[test]
fn standard_match_starts_centred() {
    let g = Game::new();
    assert_eq!(g.player.position, p(-340_000, 0));
    assert_eq!(g.computer.position, p(340_000, 0));
    assert_eq!(g.player.role, Role::Player);
    assert_eq!(g.computer.role, Role::Computer);
    assert_eq!(g.player.half_size, p(10_000, 60_000));
    assert_eq!(g.ball.position, p(0, 0));
    assert_eq!(g.ball.velocity, p(283, -283));
    assert_eq!(g.ball.radius, 15_000);
    assert_eq!(g.score(), 0);
}

#[test]
fn paddle_bounds_of_standard_arena() {
    let g = Game::new();
    assert_eq!(g.arena.paddle_bounds(PADDLE_HALF_HEIGHT), (-385_000, 385_000));
}

#[test]
fn config_with_oversized_paddle_is_refused() {
    let mut config = GameConfig::standard();
    config.paddle_half_size = p(10_000, 446_000);
    assert!(Game::from_config(&config).is_none());
    config.paddle_half_size = p(10_000, 445_000);
    assert!(Game::from_config(&config).is_some());
}

#[test]
fn config_with_bad_ball_or_arena_is_refused() {
    let mut config = GameConfig::standard();
    config.ball_radius = -1;
    assert!(Game::from_config(&config).is_none());
    let mut config = GameConfig::standard();
    config.ball_velocity = p(i32::MIN, 0);
    assert!(Game::from_config(&config).is_none());
    let mut config = GameConfig::standard();
    config.arena = Arena { half_width: -1, half_height: 450_000, wall_half_thickness: 5_000 };
    assert!(Game::from_config(&config).is_none());
}

#[test]
fn one_tick_moves_ball_and_computer() {
    let mut g = Game::new();
    let signals = g.tick(16, false, false);
    assert!(signals.is_empty());
    assert_eq!(g.ball.position, p(4_528, -4_528));
    assert_eq!(g.ball.velocity, p(283, -283));
    assert_eq!(g.player.position, p(-340_000, 0));
    // ball level with the paddle: the computer moves up at half speed
    assert_eq!(g.computer.position, p(340_000, 4_000));
    assert_eq!(g.score(), 0);
}

#[test]
fn player_keys_move_player_paddle() {
    let mut g = Game::new();
    g.tick(16, false, true);
    assert_eq!(g.player.position.y, 4_000);
    g.tick(16, true, false);
    assert_eq!(g.player.position.y, 0);
    g.tick(16, true, true);
    assert_eq!(g.player.position.y, 0);
}

#[test]
fn zero_tick_moves_nothing() {
    let mut g = Game::new();
    g.tick(16, false, true);
    let before = g;
    g.tick(0, true, false);
    assert_eq!(g.ball.position, before.ball.position);
    assert_eq!(g.player.position, before.player.position);
    assert_eq!(g.computer.position, before.computer.position);
}

#[test]
fn long_match_keeps_invariants() {
    let mut g = Game::new();
    let speed = |v: Point| v.x as i64 * v.x as i64 + v.y as i64 * v.y as i64;
    let start_speed = speed(g.ball.velocity);
    let mut expected_score: i64 = 0;
    let mut hits = 0;
    for i in 0..20_000u32 {
        let down = i % 7 < 3;
        let up = i % 5 < 2;
        let signals = g.tick(16, down, up);
        hits += signals.len();
        for s in signals.iter() {
            match s.goal {
                Goal::Player => expected_score -= 1,
                Goal::Computer => expected_score += 1,
                Goal::Plain => {}
            }
        }
        assert_eq!(g.score(), expected_score);
        assert_eq!(speed(g.ball.velocity), start_speed);
        for paddle in [g.player, g.computer] {
            assert!(-385_000 <= paddle.position.y && paddle.position.y <= 385_000);
        }
    }
    assert!(hits > 0);
}
