use padler::arena::{Arena, WallLocation};
use padler::collision::{
    ball_collision, reflect, resolve_collisions, Collider, Collision, CollisionSignal, Goal,
};
use padler::geometry::{Aabb, BoundingCircle, Point};
use padler::motion::integrate;
use padler::score::{apply_goal, update_score};

fn p(x: i32, y: i32) -> Point {
    Point { x, y }
}

fn ball(x: i32, y: i32) -> BoundingCircle {
    BoundingCircle { center: p(x, y), radius: 15 }
}

fn speed_squared(v: Point) -> i64 {
    v.x as i64 * v.x as i64 + v.y as i64 * v.y as i64
}

#[test]
fn struck_side_follows_offset() {
    let b = Aabb::new(p(0, 0), p(10, 10));
    assert_eq!(ball_collision(&ball(-20, 0), &b), Some(Collision::Left));
    assert_eq!(ball_collision(&ball(20, 0), &b), Some(Collision::Right));
    assert_eq!(ball_collision(&ball(0, 20), &b), Some(Collision::Top));
    assert_eq!(ball_collision(&ball(0, -20), &b), Some(Collision::Bottom));
    assert_eq!(ball_collision(&ball(40, 0), &b), None);
}

#[test]
fn equal_offsets_go_to_the_vertical_sides() {
    let b = Aabb::new(p(0, 0), p(10, 10));
    assert_eq!(ball_collision(&ball(15, 15), &b), Some(Collision::Top));
    assert_eq!(ball_collision(&ball(-15, -15), &b), Some(Collision::Bottom));
    // a centre inside the box has no offset at all
    assert_eq!(ball_collision(&ball(0, 0), &b), Some(Collision::Bottom));
}

#[test]
fn reflection_negates_only_the_incoming_component() {
    assert_eq!(reflect(p(400, 30), Collision::Left), p(-400, 30));
    assert_eq!(reflect(p(-400, 30), Collision::Left), p(-400, 30));
    assert_eq!(reflect(p(-400, 30), Collision::Right), p(400, 30));
    assert_eq!(reflect(p(400, 30), Collision::Right), p(400, 30));
    assert_eq!(reflect(p(30, -400), Collision::Top), p(30, 400));
    assert_eq!(reflect(p(30, 400), Collision::Top), p(30, 400));
    assert_eq!(reflect(p(30, 400), Collision::Bottom), p(30, -400));
    assert_eq!(reflect(p(30, -400), Collision::Bottom), p(30, -400));
}

#[test]
fn left_reflection_does_not_retrigger() {
    let once = reflect(p(283, -283), Collision::Left);
    assert_eq!(once, p(-283, -283));
    assert_eq!(reflect(once, Collision::Left), once);
}

#[test]
fn reflections_keep_speed() {
    let mut v = p(283, -283);
    let start = speed_squared(v);
    let sides = [
        Collision::Left,
        Collision::Top,
        Collision::Right,
        Collision::Bottom,
        Collision::Top,
        Collision::Left,
        Collision::Left,
    ];
    for &side in sides.iter() {
        v = reflect(v, side);
        assert_eq!(speed_squared(v), start);
    }
}

#[test]
fn resolver_checks_every_collider_in_order() {
    let colliders = vec![
        Collider { aabb: Aabb::new(p(20, 0), p(10, 100)), goal: Goal::Plain },
        Collider { aabb: Aabb::new(p(1000, 0), p(10, 10)), goal: Goal::Computer },
        Collider { aabb: Aabb::new(p(0, 20), p(100, 10)), goal: Goal::Player },
    ];
    let (v, signals) = resolve_collisions(&ball(0, 0), p(5, 7), &colliders);
    assert_eq!(v, p(-5, -7));
    assert_eq!(
        signals,
        vec![
            CollisionSignal { collider: 0, side: Collision::Left, goal: Goal::Plain },
            CollisionSignal { collider: 2, side: Collision::Bottom, goal: Goal::Player },
        ]
    );
}

#[test]
fn resolver_reports_each_hit_of_the_same_box() {
    let b = Aabb::new(p(20, 0), p(10, 100));
    let colliders = vec![Collider { aabb: b, goal: Goal::Plain }, Collider { aabb: b, goal: Goal::Plain }];
    let (v, signals) = resolve_collisions(&ball(0, 0), p(5, 0), &colliders);
    assert_eq!(v, p(-5, 0));
    assert_eq!(signals.len(), 2);
}

#[test]
fn resolver_without_colliders_changes_nothing() {
    let (v, signals) = resolve_collisions(&ball(0, 0), p(5, 7), &Vec::new());
    assert_eq!(v, p(5, 7));
    assert!(signals.is_empty());
}

#[test]
fn goals_move_the_score_by_one() {
    assert_eq!(apply_goal(0, Goal::Player), -1);
    assert_eq!(apply_goal(0, Goal::Computer), 1);
    assert_eq!(apply_goal(0, Goal::Plain), 0);
    assert_eq!(apply_goal(-1, Goal::Player), -2);
}

#[test]
fn score_applies_every_signal() {
    let s = |goal| CollisionSignal { collider: 0, side: Collision::Left, goal };
    let signals = vec![s(Goal::Computer), s(Goal::Plain), s(Goal::Computer), s(Goal::Player)];
    assert_eq!(update_score(10, &signals), 11);
    assert_eq!(update_score(10, &Vec::new()), 10);
    assert_eq!(update_score(0, &vec![s(Goal::Player), s(Goal::Player)]), -2);
}

#[test]
fn ball_reaching_the_right_goal_bounces_and_scores() {
    let arena = Arena { half_width: 350_000, half_height: 450_000, wall_half_thickness: 5_000 };
    let wall = WallLocation::Right.collider(&arena);
    assert_eq!(wall.goal, Goal::Computer);
    let position = integrate(p(300_000, 0), p(400, 0), 100);
    assert_eq!(position, p(340_000, 0));
    let circle = BoundingCircle { center: position, radius: 15_000 };
    let (v, signals) = resolve_collisions(&circle, p(400, 0), &vec![wall]);
    assert_eq!(v, p(-400, 0));
    assert_eq!(signals.len(), 1);
    assert_eq!(signals[0].side, Collision::Left);
    assert_eq!(update_score(0, &signals), 1);
}

#[test]
fn ball_past_the_wall_reach_meets_nothing() {
    // from (340, 0) at 400 units/s for 0.1 s the centre reaches (380, 0),
    // 25 units from the right wall's face: beyond a radius of 15
    let arena = Arena { half_width: 350_000, half_height: 450_000, wall_half_thickness: 5_000 };
    let wall = WallLocation::Right.collider(&arena);
    let position = integrate(p(340_000, 0), p(400, 0), 100);
    assert_eq!(position, p(380_000, 0));
    let circle = BoundingCircle { center: position, radius: 15_000 };
    let (v, signals) = resolve_collisions(&circle, p(400, 0), &vec![wall]);
    assert_eq!(v, p(400, 0));
    assert!(signals.is_empty());
}

#[test]
fn top_and_bottom_walls_do_not_score() {
    let arena = Arena { half_width: 350_000, half_height: 450_000, wall_half_thickness: 5_000 };
    let top = WallLocation::Top.collider(&arena);
    let bottom = WallLocation::Bottom.collider(&arena);
    let circle = BoundingCircle { center: p(0, 440_000), radius: 15_000 };
    let (v, signals) = resolve_collisions(&circle, p(0, 400), &vec![bottom, top]);
    assert_eq!(v, p(0, -400));
    assert_eq!(signals.len(), 1);
    assert_eq!(update_score(3, &signals), 3);
}

#[test]
fn left_wall_is_the_player_goal() {
    let arena = Arena { half_width: 350_000, half_height: 450_000, wall_half_thickness: 5_000 };
    let wall = WallLocation::Left.collider(&arena);
    assert_eq!(wall.goal, Goal::Player);
    assert_eq!(wall.aabb.min, p(-355_000, -455_000));
    assert_eq!(wall.aabb.max, p(-345_000, 455_000));
    let circle = BoundingCircle { center: p(-335_000, 0), radius: 15_000 };
    let (v, signals) = resolve_collisions(&circle, p(-400, 0), &vec![wall]);
    assert_eq!(v, p(400, 0));
    assert_eq!(signals[0].side, Collision::Right);
    assert_eq!(update_score(0, &signals), -1);
}
