//! Free-flight physics: gravity, collision, drag, integration.

use desk_ball::ball::Ball;
use desk_ball::math::Vec2;

// One pixel is 1_000_000 fixed-point units.
const PX: i64 = 1_000_000;

fn ball_at(x_px: i64, y_px: i64) -> Ball {
    // Radius 1 m = 64 px.
    let mut b = Ball::new(1_000_000);
    b.pos = Vec2::new(x_px * PX, y_px * PX);
    b
}

#[test]
fn new_ball_is_at_rest() {
    let b = Ball::new(1_000_000);
    assert_eq!(b.radius, 64 * PX);
    assert_eq!(b.pos, Vec2::zero());
    assert_eq!(b.velocity, Vec2::zero());
    assert!(b.start_drag.is_none());
    assert!(b.last_update.is_none());
    let s = b.size();
    assert_eq!(s, Vec2::new(128 * PX, 128 * PX));
}

#[test]
fn gravity_first_step_exact() {
    let mut b = ball_at(400, 100);
    b.tick(Vec2::new(800 * PX, 600 * PX), 16_667);
    // velocity.y = g*dt less the drag term, truncated; pos.y moves by
    // velocity.y * dt, truncated.
    assert_eq!(b.velocity, Vec2::new(0, 10_444_831));
    assert_eq!(b.pos, Vec2::new(400 * PX, 100_174_083));
    assert!(b.start_drag.is_none());
}

#[test]
fn gravity_fall_scenario() {
    // Radius 64 px, bounds 800x600, start at rest well inside the
    // screen; sixty frames at dt = 1/60 s fall monotonically and never
    // pass the floor line at bounds.y - radius = 536 px.
    let bounds = Vec2::new(800 * PX, 600 * PX);
    let mut b = ball_at(400, 100);
    let mut prev_y = b.pos.y;
    for _ in 0..60 {
        b.tick(bounds, 16_667);
        assert!(b.pos.y > prev_y);
        assert!(b.pos.y <= 536 * PX);
        prev_y = b.pos.y;
    }
    assert_eq!(b.pos, Vec2::new(400 * PX, 413_415_011));
    assert_eq!(b.velocity, Vec2::new(0, 611_528_733));
}

#[test]
fn floor_collision_restitution() {
    // A center below the floor line lands exactly on it and a downward
    // velocity of 100 px/s reflects to exactly -60 px/s. With dt = 0,
    // gravity, drag and integration all contribute nothing, so the
    // collision response is observed alone.
    let mut b = ball_at(400, 550);
    b.velocity = Vec2::new(0, 100 * PX);
    b.tick(Vec2::new(800 * PX, 600 * PX), 0);
    assert_eq!(b.pos, Vec2::new(400 * PX, 536 * PX));
    assert_eq!(b.velocity, Vec2::new(0, -60 * PX));
}

#[test]
fn wall_collision_restitution() {
    // Same rule on the x axis: a center past the left wall lands on
    // x = radius and the velocity reverses to 0.6 of itself.
    let mut b = ball_at(-30, 300);
    b.velocity = Vec2::new(-50 * PX, 0);
    b.tick(Vec2::new(800 * PX, 600 * PX), 0);
    assert_eq!(b.pos, Vec2::new(64 * PX, 300 * PX));
    assert_eq!(b.velocity, Vec2::new(30 * PX, 0));
}

#[test]
fn tick_clears_drag_anchor() {
    let mut b = ball_at(400, 300);
    b.start_drag = Some(Vec2::new(390 * PX, 300 * PX));
    b.tick(Vec2::new(800 * PX, 600 * PX), 16_667);
    assert!(b.start_drag.is_none());
}

#[test]
fn drag_decays_horizontal_velocity() {
    // On the axis gravity leaves alone, the drag term makes the speed
    // strictly fall every frame while the ball flies free.
    let bounds = Vec2::new(100_000 * PX, 100_000 * PX);
    let mut b = ball_at(100, 50_000);
    b.velocity = Vec2::new(300 * PX, 0);
    let mut prev = b.velocity.x;
    for _ in 0..120 {
        b.tick(bounds, 16_667);
        assert!(0 < b.velocity.x && b.velocity.x < prev);
        prev = b.velocity.x;
    }
    assert_eq!(b.velocity.x, 271_439_424);
}

#[test]
fn zero_dt_changes_nothing_in_flight() {
    // With no elapsed time and no contact, a frame moves nothing.
    let mut b = ball_at(400, 300);
    b.velocity = Vec2::new(25 * PX, -75 * PX);
    b.tick(Vec2::new(800 * PX, 600 * PX), 0);
    assert_eq!(b.pos, Vec2::new(400 * PX, 300 * PX));
    assert_eq!(b.velocity, Vec2::new(25 * PX, -75 * PX));
}

#[test]
fn ceiling_collision_restitution() {
    // A center above the ceiling line (y < radius) lands exactly on it
    // and an upward velocity reflects downward to 0.6 of itself.
    let mut b = ball_at(400, 30);
    b.velocity = Vec2::new(0, -200 * PX);
    b.tick(Vec2::new(800 * PX, 600 * PX), 0);
    assert_eq!(b.pos, Vec2::new(400 * PX, 64 * PX));
    assert_eq!(b.velocity, Vec2::new(0, 120 * PX));
}

#[test]
fn restitution_truncates_toward_zero() {
    // 7 units downward reflect to -0.6 * 7 = -4.2, truncated to -4.
    let mut b = ball_at(400, 550);
    b.velocity = Vec2::new(0, 7);
    b.tick(Vec2::new(800 * PX, 600 * PX), 0);
    assert_eq!(b.velocity.y, -4);
}
