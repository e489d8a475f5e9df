//! End-to-end simulation-step scenarios.

use breakout_core::geometry::Vec2;
use breakout_core::layout::standard_config;
use breakout_core::world::{Ball, Brick, EndCondition, GameEvent, GameWorld, PaddleInput};

fn v(x: i64, y: i64) -> Vec2 {
    Vec2 { x, y }
}

/// Ball at the arena center moving toward the bottom wall with one life
/// left: the life is spent, the ball resets to its start, play goes on.
#[test]
fn deadly_wall_with_a_life_left_resets_the_ball() {
    let cfg = standard_config();
    let mut w = GameWorld::new(&cfg);
    w.lives = 1;
    w.ball = Ball { pos: v(0, -200_000), vel: v(0, -500) };
    let r = w.tick(PaddleInput::Stay, 200);
    assert_eq!(w.lives, 0);
    assert_eq!(w.ball.pos, cfg.ball_start);
    assert_eq!(w.ball.vel, cfg.ball_start_vel);
    assert_eq!(w.score, 0);
    assert_eq!(r.outcome, None);
    assert_eq!(r.events, vec![GameEvent::Collision, GameEvent::LostLife]);
}

/// The same impact at zero lives: game over, and the ball is not reset.
#[test]
fn deadly_wall_at_zero_lives_is_game_over() {
    let cfg = standard_config();
    let mut w = GameWorld::new(&cfg);
    w.lives = 0;
    w.ball = Ball { pos: v(0, -200_000), vel: v(0, -500) };
    let r = w.tick(PaddleInput::Stay, 200);
    assert_eq!(w.lives, 0);
    assert_eq!(w.ball.pos, v(0, -300_000));
    assert_eq!(w.ball.vel, v(0, -500));
    assert_eq!(r.outcome, Some(EndCondition::GameOver));
    assert_eq!(r.events, vec![GameEvent::Collision, GameEvent::GameOver]);
}

/// Destroying the single remaining brick wins in the same tick and scores
/// one point.
#[test]
fn destroying_the_last_brick_wins() {
    let cfg = standard_config();
    let mut w = GameWorld::new(&cfg);
    w.bricks = vec![Brick { center: v(0, 45_000), alive: true }];
    w.ball = Ball { pos: v(0, 45_000), vel: v(0, 0) };
    w.score = 5;
    let r = w.tick(PaddleInput::Stay, 0);
    assert_eq!(w.score, 6);
    assert!(!w.bricks[0].alive);
    assert_eq!(r.outcome, Some(EndCondition::Win));
    assert_eq!(r.events, vec![GameEvent::Collision]);
}

/// When the last brick and the deadly wall are hit in the same tick, the
/// brick phase runs first in collider order, so the outcome is a win even
/// at zero lives.
#[test]
fn last_brick_beats_simultaneous_deadly_collision() {
    let cfg = standard_config();
    let mut w = GameWorld::new(&cfg);
    w.bricks = vec![Brick { center: v(0, -280_000), alive: true }];
    w.ball = Ball { pos: v(0, -292_000), vel: v(0, 0) };
    w.lives = 0;
    let r = w.tick(PaddleInput::Stay, 0);
    assert_eq!(r.outcome, Some(EndCondition::Win));
    assert_eq!(w.score, 1);
    assert_eq!(w.lives, 0);
    assert_eq!(r.events, vec![GameEvent::Collision]);
}

/// One simulated second of "move left" at 500 units per second from center:
/// minus 500 units, clamped to the left paddle bound.
#[test]
fn paddle_clamps_at_the_left_bound() {
    let cfg = standard_config();
    let mut w = GameWorld::new(&cfg);
    assert_eq!(w.paddle_x, 0);
    let r = w.tick(PaddleInput::MoveLeft, 1_000);
    // Unclamped the paddle would sit at -500 units = -500_000 subunits; the
    // bound is -375_000.
    assert_eq!(w.paddle_x, -375_000);
    assert!(r.events.is_empty());
    assert_eq!(r.outcome, None);
}

/// The same movement split into frames stays exact and clamps at the same
/// place.
#[test]
fn paddle_movement_is_exact_before_the_bound() {
    let cfg = standard_config();
    let mut w = GameWorld::new(&cfg);
    w.ball.vel = v(0, 0);
    w.tick(PaddleInput::MoveLeft, 500);
    assert_eq!(w.paddle_x, -250_000);
    w.tick(PaddleInput::MoveLeft, 200);
    assert_eq!(w.paddle_x, -350_000);
    w.tick(PaddleInput::MoveLeft, 300);
    assert_eq!(w.paddle_x, -375_000);
    w.tick(PaddleInput::MoveRight, 100);
    assert_eq!(w.paddle_x, -325_000);
    w.tick(PaddleInput::Stay, 1_000);
    assert_eq!(w.paddle_x, -325_000);
}

/// A brick hit scores exactly one, reflects nothing on a resting ball, and
/// a destroyed brick is not hit again; the score never falls.
#[test]
fn brick_destruction_scores_once() {
    let cfg = standard_config();
    let mut w = GameWorld::new(&cfg);
    w.bricks = vec![
        Brick { center: v(0, 45_000), alive: true },
        Brick { center: v(200_000, 45_000), alive: true },
    ];
    w.ball = Ball { pos: v(0, 45_000), vel: v(0, 0) };
    let r = w.tick(PaddleInput::Stay, 0);
    assert_eq!(w.score, 1);
    assert!(!w.bricks[0].alive);
    assert!(w.bricks[1].alive);
    assert_eq!(r.outcome, None);
    assert_eq!(r.events, vec![GameEvent::Collision]);
    // The dead brick no longer collides; the score stays.
    let r2 = w.tick(PaddleInput::Stay, 0);
    assert_eq!(w.score, 1);
    assert_eq!(r2.outcome, None);
    assert!(r2.events.is_empty());
}

/// Two simultaneous brick collisions in one tick are each processed
/// independently, in index order; the second one clears the field and wins.
#[test]
fn simultaneous_brick_hits_are_processed_in_order() {
    let cfg = standard_config();
    let mut w = GameWorld::new(&cfg);
    w.bricks = vec![
        Brick { center: v(0, 45_000), alive: true },
        Brick { center: v(20_000, 45_000), alive: true },
    ];
    w.ball = Ball { pos: v(10_000, 45_000), vel: v(0, 0) };
    let r = w.tick(PaddleInput::Stay, 0);
    assert_eq!(w.score, 2);
    assert!(!w.bricks[0].alive);
    assert!(!w.bricks[1].alive);
    assert_eq!(r.outcome, Some(EndCondition::Win));
    assert_eq!(r.events, vec![GameEvent::Collision, GameEvent::Collision]);
}

/// A wall bounce reflects the velocity component moving toward the wall.
#[test]
fn wall_bounce_reflects_velocity() {
    let cfg = standard_config();
    let mut w = GameWorld::new(&cfg);
    // Heading into the right wall.
    w.ball = Ball { pos: v(400_000, 0), vel: v(400, 100) };
    let r = w.tick(PaddleInput::Stay, 100);
    // Integrated to x = 440_000, inside the wall's reach (inner face at
    // 445_000, radius 15_000): reflected.
    assert_eq!(w.ball.pos, v(440_000, 10_000));
    assert_eq!(w.ball.vel, v(-400, 100));
    assert_eq!(r.events, vec![GameEvent::Collision]);
    assert_eq!(r.outcome, None);
}

/// Velocity integration is exact: position moves by velocity times seconds.
#[test]
fn integration_is_exact() {
    let cfg = standard_config();
    let mut w = GameWorld::new(&cfg);
    w.ball = Ball { pos: v(-10_000, 20_000), vel: v(283, -283) };
    w.tick(PaddleInput::Stay, 250);
    assert_eq!(w.ball.pos, v(-10_000 + 283 * 250, 20_000 - 283 * 250));
}
