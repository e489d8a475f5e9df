//! The live play field and the fixed-tick simulation step.
//!
//! A tick runs its phases in a fixed order: velocity integration, paddle
//! movement, then collision resolution against the colliders in a fixed
//! iteration order — every brick (by index), the paddle, and the walls with
//! the deadly bottom wall last. The whole step is mirrored by spec functions
//! (`spec_tick` and the `resolve_*` family), and `tick` returns exactly what
//! the mirror says.

use vstd::prelude::*;
use crate::geometry::{
    Vec2,
    spec_classify,
    spec_reflect,
    classify_collision,
    reflect_velocity,
    clamp_i64,
    clamped,
    vec_in_range,
    COORD_LIMIT,
};
use crate::layout::{ArenaConfig, in_region, vel_in_limit, REGION_LIMIT, DT_MAX};

verus! {

/// The moving ball: position and velocity.
#[derive(Clone, Copy, Debug, PartialEq, Eq, Structural)]
pub struct Ball {
    pub pos: Vec2,
    pub vel: Vec2,
}

/// One brick: a fixed center and whether it still stands.
#[derive(Clone, Copy, Debug, PartialEq, Eq, Structural)]
pub struct Brick {
    pub center: Vec2,
    pub alive: bool,
}

/// Horizontal input applied to the paddle during one tick.
#[derive(Clone, Copy, Debug, PartialEq, Eq, Structural)]
pub enum PaddleInput {
    MoveLeft,
    MoveRight,
    Stay,
}

/// A notification emitted by the simulation step, drained once per tick.
#[derive(Clone, Copy, Debug, PartialEq, Eq, Structural)]
pub enum GameEvent {
    Collision,
    LostLife,
    GameOver,
}

/// A terminal outcome that aborts the rest of a tick.
#[derive(Clone, Copy, Debug, PartialEq, Eq, Structural)]
pub enum EndCondition {
    Win,
    GameOver,
}

/// What one tick hands back: the notifications of the tick, and the terminal
/// outcome if one was reached.
#[derive(Debug)]
pub struct TickResult {
    pub events: Vec<GameEvent>,
    pub outcome: Option<EndCondition>,
}

/// The play field while a game is running.
#[derive(Debug)]
pub struct GameWorld {
    pub config: ArenaConfig,
    pub ball: Ball,
    pub paddle_x: i64,
    pub bricks: Vec<Brick>,
    pub score: u64,
    pub lives: u64,
}

/// 1 for a standing brick, 0 for a destroyed one.
pub open spec fn count1(b: Brick) -> int {
    if b.alive {
        1
    } else {
        0
    }
}

/// Number of standing bricks at positions `i` and beyond.
pub open spec fn alive_from(s: Seq<Brick>, i: int) -> int
    decreases s.len() - i,
{
    if i < 0 || i >= s.len() {
        0
    } else {
        count1(s[i]) + alive_from(s, i + 1)
    }
}

/// Number of standing bricks.
pub open spec fn alive_count(s: Seq<Brick>) -> int {
    alive_from(s, 0)
}

/// The count of a suffix is non-negative and at most the suffix length.
pub proof fn lemma_alive_from_bounds(s: Seq<Brick>, i: int)
    requires
        0 <= i <= s.len(),
    ensures
        0 <= alive_from(s, i) <= s.len() - i,
    decreases s.len() - i,
{
    if i < s.len() {
        lemma_alive_from_bounds(s, i + 1);
    }
}

/// Replacing the brick at `j` moves the suffix count by the difference of
/// the two bricks' contributions, when `j` lies in the suffix.
pub proof fn lemma_alive_from_update(s: Seq<Brick>, j: int, b: Brick, i: int)
    requires
        0 <= i <= s.len(),
        0 <= j < s.len(),
    ensures
        alive_from(s.update(j, b), i) == if i <= j {
            alive_from(s, i) - count1(s[j]) + count1(b)
        } else {
            alive_from(s, i)
        },
    decreases s.len() - i,
{
    if i < s.len() {
        lemma_alive_from_update(s, j, b, i + 1);
    }
}

/// A standing brick makes every count over a prefix start positive.
pub proof fn lemma_alive_from_positive(s: Seq<Brick>, i: int, k: int)
    requires
        0 <= i <= k < s.len(),
        s[k].alive,
    ensures
        alive_from(s, i) >= 1,
    decreases k - i,
{
    lemma_alive_from_bounds(s, i + 1);
    if i < k {
        lemma_alive_from_positive(s, i + 1, k);
    }
}

/// The ghost state that collision resolution threads from collider to
/// collider: the ball, the brick field, the two counters, the notifications
/// emitted so far, and the terminal outcome once one is reached.
#[verifier::ext_equal]
pub struct Resolution {
    pub ball: Ball,
    pub bricks: Seq<Brick>,
    pub score: int,
    pub lives: int,
    pub events: Seq<GameEvent>,
    pub outcome: Option<EndCondition>,
}

/// Ball position after one integration step: position plus velocity times
/// the tick duration, confined to the simulation region.
pub open spec fn spec_integrate(ball: Ball, dt: u64) -> Ball {
    Ball {
        pos: Vec2 {
            x: clamped(ball.pos.x + ball.vel.x * dt, -REGION_LIMIT as int, REGION_LIMIT as int)
                as i64,
            y: clamped(ball.pos.y + ball.vel.y * dt, -REGION_LIMIT as int, REGION_LIMIT as int)
                as i64,
        },
        vel: ball.vel,
    }
}

/// Direction sign of a paddle input.
pub open spec fn input_dir(input: PaddleInput) -> int {
    match input {
        PaddleInput::MoveLeft => -1,
        PaddleInput::MoveRight => 1,
        PaddleInput::Stay => 0,
    }
}

/// Paddle center after one tick of input: moved by direction times speed
/// times duration, then clamped so the paddle stays between the walls with
/// its padding margin.
pub open spec fn spec_move_paddle(cfg: ArenaConfig, x: i64, input: PaddleInput, dt: u64) -> int {
    clamped(x + input_dir(input) * cfg.paddle_speed * dt, cfg.paddle_min_x(), cfg.paddle_max_x())
}

/// Resolution of the brick at index `i`: on a hit the brick falls, the score
/// rises by one, and either the field is cleared — the game is won and the
/// tick aborts — or the ball reflects off the brick.
pub open spec fn resolve_brick(r: Resolution, cfg: ArenaConfig, i: int) -> Resolution {
    if r.outcome is Some || !r.bricks[i].alive {
        r
    } else {
        match spec_classify(
            r.ball.pos,
            cfg.ball_radius as int,
            r.bricks[i].center,
            Vec2 { x: cfg.brick_half_x, y: cfg.brick_half_y },
        ) {
            Option::None => r,
            Option::Some(side) => {
                let bricks2 = r.bricks.update(i, Brick { center: r.bricks[i].center, alive: false });
                let events2 = r.events.push(GameEvent::Collision);
                if alive_count(bricks2) == 0 {
                    Resolution {
                        bricks: bricks2,
                        score: r.score + 1,
                        events: events2,
                        outcome: Some(EndCondition::Win),
                        ..r
                    }
                } else {
                    Resolution {
                        ball: Ball { pos: r.ball.pos, vel: spec_reflect(r.ball.vel, side) },
                        bricks: bricks2,
                        score: r.score + 1,
                        events: events2,
                        ..r
                    }
                }
            },
        }
    }
}

/// Resolution of the bricks from index `i` on, in index order, stopping at a
/// terminal outcome.
pub open spec fn resolve_bricks(r: Resolution, cfg: ArenaConfig, i: int) -> Resolution
    decreases r.bricks.len() - i,
{
    if i < 0 || i >= r.bricks.len() || r.outcome is Some {
        r
    } else {
        resolve_bricks(resolve_brick(r, cfg, i), cfg, i + 1)
    }
}

/// Resolution of one box collider (the paddle or a wall). A plain box
/// reflects the ball. The deadly box at zero lives ends the game without a
/// reset; otherwise it costs a life and puts the ball back at its start.
pub open spec fn resolve_box(
    r: Resolution,
    cfg: ArenaConfig,
    center: Vec2,
    half: Vec2,
    deadly: bool,
) -> Resolution {
    if r.outcome is Some {
        r
    } else {
        match spec_classify(r.ball.pos, cfg.ball_radius as int, center, half) {
            Option::None => r,
            Option::Some(side) => {
                let events2 = r.events.push(GameEvent::Collision);
                if deadly {
                    if r.lives == 0 {
                        Resolution {
                            events: events2.push(GameEvent::GameOver),
                            outcome: Some(EndCondition::GameOver),
                            ..r
                        }
                    } else {
                        Resolution {
                            ball: Ball { pos: cfg.ball_start, vel: cfg.ball_start_vel },
                            lives: r.lives - 1,
                            events: events2.push(GameEvent::LostLife),
                            ..r
                        }
                    }
                } else {
                    Resolution {
                        ball: Ball { pos: r.ball.pos, vel: spec_reflect(r.ball.vel, side) },
                        events: events2,
                        ..r
                    }
                }
            },
        }
    }
}

/// The paddle collider for a given paddle center.
pub open spec fn paddle_center(cfg: ArenaConfig, px: int) -> Vec2 {
    Vec2 { x: px as i64, y: cfg.paddle_y() as i64 }
}

pub open spec fn paddle_half(cfg: ArenaConfig) -> Vec2 {
    Vec2 { x: cfg.paddle_half_x, y: cfg.paddle_half_y }
}

/// Collision resolution for a whole tick: every brick in index order, then
/// the paddle, then the walls, the deadly bottom wall last.
pub open spec fn resolve_all(r: Resolution, cfg: ArenaConfig, px: int) -> Resolution {
    let r1 = resolve_bricks(r, cfg, 0);
    let r2 = resolve_box(r1, cfg, paddle_center(cfg, px), paddle_half(cfg), false);
    let r3 = resolve_box(
        r2,
        cfg,
        cfg.wall(crate::layout::WallKind::Left).center,
        cfg.wall(crate::layout::WallKind::Left).half,
        false,
    );
    let r4 = resolve_box(
        r3,
        cfg,
        cfg.wall(crate::layout::WallKind::Right).center,
        cfg.wall(crate::layout::WallKind::Right).half,
        false,
    );
    let r5 = resolve_box(
        r4,
        cfg,
        cfg.wall(crate::layout::WallKind::Top).center,
        cfg.wall(crate::layout::WallKind::Top).half,
        false,
    );
    resolve_box(
        r5,
        cfg,
        cfg.wall(crate::layout::WallKind::Bottom).center,
        cfg.wall(crate::layout::WallKind::Bottom).half,
        true,
    )
}

/// The resolution state a tick starts from, after integration but before
/// any collider is examined.
pub open spec fn start_res(w: GameWorld, dt: u64) -> Resolution {
    Resolution {
        ball: spec_integrate(w.ball, dt),
        bricks: w.bricks@,
        score: w.score as int,
        lives: w.lives as int,
        events: Seq::empty(),
        outcome: None,
    }
}

/// Everything one tick does, as one value: the mirror that `tick` is proved
/// against.
pub open spec fn spec_tick(w: GameWorld, input: PaddleInput, dt: u64) -> Resolution {
    resolve_all(start_res(w, dt), w.config, spec_move_paddle(w.config, w.paddle_x, input, dt))
}

/// A field of all-standing bricks counts its full length.
pub proof fn lemma_alive_from_full(s: Seq<Brick>, i: int)
    requires
        0 <= i <= s.len(),
        forall|k: int| i <= k < s.len() ==> (#[trigger] s[k]).alive,
    ensures
        alive_from(s, i) == s.len() - i,
    decreases s.len() - i,
{
    if i < s.len() {
        lemma_alive_from_full(s, i + 1);
    }
}

/// What the brick phase can and cannot do: bricks only fall, never move;
/// the score rises by exactly the number of bricks that fell; lives and the
/// ball position are untouched; and the phase ends the game — with a win —
/// exactly when it clears the field.
pub proof fn lemma_resolve_bricks_props(r: Resolution, cfg: ArenaConfig, i: int)
    requires
        0 <= i <= r.bricks.len(),
    ensures
        ({
            let r2 = resolve_bricks(r, cfg, i);
            &&& r2.bricks.len() == r.bricks.len()
            &&& forall|k: int|
                0 <= k < r.bricks.len() ==> (#[trigger] r2.bricks[k]).center == r.bricks[k].center
            &&& forall|k: int|
                0 <= k < r.bricks.len() ==> ((#[trigger] r2.bricks[k]).alive ==> r.bricks[k].alive)
            &&& r2.lives == r.lives
            &&& r2.score == r.score + alive_count(r.bricks) - alive_count(r2.bricks)
            &&& alive_count(r2.bricks) <= alive_count(r.bricks)
            &&& 0 <= alive_count(r2.bricks)
            &&& (r.outcome is Some ==> r2 == r)
            &&& (r2.outcome == r.outcome || r2.outcome == Some(EndCondition::Win))
            &&& (r.outcome is None && r2.outcome == Some(EndCondition::Win) ==> alive_count(
                r2.bricks,
            ) == 0)
            &&& (r.outcome is None && alive_count(r.bricks) > 0 && alive_count(r2.bricks) == 0
                ==> r2.outcome == Some(EndCondition::Win))
            &&& r2.ball.pos == r.ball.pos
            &&& (vel_in_limit(r.ball.vel) ==> vel_in_limit(r2.ball.vel))
        }),
    decreases r.bricks.len() - i,
{
    lemma_alive_from_bounds(r.bricks, 0);
    if i < r.bricks.len() && r.outcome is None {
        let rn = resolve_brick(r, cfg, i);
        if r.bricks[i].alive {
            let hit = spec_classify(
                r.ball.pos,
                cfg.ball_radius as int,
                r.bricks[i].center,
                Vec2 { x: cfg.brick_half_x, y: cfg.brick_half_y },
            );
            if hit is Some {
                lemma_alive_from_update(
                    r.bricks,
                    i,
                    Brick { center: r.bricks[i].center, alive: false },
                    0,
                );
            }
        }
        lemma_resolve_bricks_props(rn, cfg, i + 1);
    }
}

/// What one box collider can and cannot do: the bricks and the score are
/// untouched; the deadly box at zero lives ends the game and leaves the
/// ball where it is; at positive lives it costs exactly one life and puts
/// the ball back at its start; any other hit only reflects the velocity.
pub proof fn lemma_resolve_box_props(
    r: Resolution,
    cfg: ArenaConfig,
    center: Vec2,
    half: Vec2,
    deadly: bool,
)
    requires
        r.lives >= 0,
    ensures
        ({
            let r2 = resolve_box(r, cfg, center, half, deadly);
            &&& r2.bricks == r.bricks
            &&& r2.score == r.score
            &&& r.lives - 1 <= r2.lives <= r.lives
            &&& (r2.lives != r.lives ==> deadly && r.lives > 0 && r2.ball == Ball {
                pos: cfg.ball_start,
                vel: cfg.ball_start_vel,
            })
            &&& (r.outcome is Some ==> r2 == r)
            &&& (r2.outcome == r.outcome || (deadly && r.outcome is None && r.lives == 0
                && r2.outcome == Some(EndCondition::GameOver)))
            &&& (r.outcome is None && r2.outcome == Some(EndCondition::GameOver) ==> r.lives == 0
                && r2.lives == 0 && r2.ball == r.ball)
            &&& (!deadly ==> r2.outcome == r.outcome && r2.lives == r.lives)
            &&& (cfg.well_formed() && vel_in_limit(r.ball.vel) ==> vel_in_limit(r2.ball.vel))
            &&& (cfg.well_formed() && in_region(r.ball.pos) ==> in_region(r2.ball.pos))
        }),
{
}

/// A deadly collision at zero lives always ends the game: when the ball
/// meets the deadly box and no terminal outcome stands yet, zero lives
/// forces the game-over outcome, and the life counter is not decremented.
pub proof fn lemma_deadly_at_zero_lives(
    r: Resolution,
    cfg: ArenaConfig,
    center: Vec2,
    half: Vec2,
)
    requires
        r.outcome is None,
        r.lives == 0,
        spec_classify(r.ball.pos, cfg.ball_radius as int, center, half) is Some,
    ensures
        resolve_box(r, cfg, center, half, true).outcome == Some(EndCondition::GameOver),
        resolve_box(r, cfg, center, half, true).lives == 0,
{
}

/// The tick-level consequences of the mirror: the score never falls and its
/// rise equals the bricks destroyed; at most one life is lost per tick and
/// never below zero; a game-over tick happens only at zero lives; and a
/// tick that clears the last brick always ends in a win.
pub proof fn lemma_tick_props(w: GameWorld, input: PaddleInput, dt: u64)
    requires
        w.wf(),
    ensures
        ({
            let res = spec_tick(w, input, dt);
            &&& res.bricks.len() == w.bricks@.len()
            &&& forall|k: int|
                0 <= k < w.bricks@.len() ==> (#[trigger] res.bricks[k]).center
                    == w.bricks@[k].center
            &&& forall|k: int|
                0 <= k < w.bricks@.len() ==> ((#[trigger] res.bricks[k]).alive
                    ==> w.bricks@[k].alive)
            &&& res.score == w.score + alive_count(w.bricks@) - alive_count(res.bricks)
            &&& w.score <= res.score
            &&& res.score + alive_count(res.bricks) == w.score + alive_count(w.bricks@)
            &&& 0 <= alive_count(res.bricks)
            &&& w.lives - 1 <= res.lives <= w.lives
            &&& 0 <= res.lives
            &&& (res.outcome == Some(EndCondition::GameOver) ==> w.lives == 0 && res.lives == 0)
            &&& (res.lives != w.lives ==> res.ball == Ball {
                pos: w.config.ball_start,
                vel: w.config.ball_start_vel,
            })
            &&& (alive_count(w.bricks@) > 0 && alive_count(res.bricks) == 0 ==> res.outcome
                == Some(EndCondition::Win))
            &&& (res.outcome == Some(EndCondition::Win) ==> alive_count(res.bricks) == 0)
            &&& in_region(res.ball.pos)
            &&& vel_in_limit(res.ball.vel)
        }),
{
    let cfg = w.config;
    let px = spec_move_paddle(cfg, w.paddle_x, input, dt);
    let r0 = start_res(w, dt);
    lemma_resolve_bricks_props(r0, cfg, 0);
    let r1 = resolve_bricks(r0, cfg, 0);
    lemma_resolve_box_props(r1, cfg, paddle_center(cfg, px), paddle_half(cfg), false);
    let r2 = resolve_box(r1, cfg, paddle_center(cfg, px), paddle_half(cfg), false);
    let wl = cfg.wall(crate::layout::WallKind::Left);
    lemma_resolve_box_props(r2, cfg, wl.center, wl.half, false);
    let r3 = resolve_box(r2, cfg, wl.center, wl.half, false);
    let wr = cfg.wall(crate::layout::WallKind::Right);
    lemma_resolve_box_props(r3, cfg, wr.center, wr.half, false);
    let r4 = resolve_box(r3, cfg, wr.center, wr.half, false);
    let wt = cfg.wall(crate::layout::WallKind::Top);
    lemma_resolve_box_props(r4, cfg, wt.center, wt.half, false);
    let r5 = resolve_box(r4, cfg, wt.center, wt.half, false);
    let wb = cfg.wall(crate::layout::WallKind::Bottom);
    lemma_resolve_box_props(r5, cfg, wb.center, wb.half, true);
}

impl GameWorld {
    /// Validity of a play field. `score + alive_count` is conserved by brick
    /// destruction, which keeps the score bound inductive.
    pub open spec fn wf(self) -> bool {
        &&& self.config.well_formed()
        &&& in_region(self.ball.pos)
        &&& vel_in_limit(self.ball.vel)
        &&& self.config.paddle_min_x() <= self.paddle_x <= self.config.paddle_max_x()
        &&& self.bricks@.len() <= 1_000_000
        &&& forall|i: int|
            0 <= i < self.bricks@.len() ==> vec_in_range(#[trigger] self.bricks@[i].center)
        &&& self.score + alive_count(self.bricks@) <= 0x1_0000_0000
        &&& self.lives <= 1_000_000
    }
}

/// Number of bricks still standing.
pub fn count_alive(bricks: &Vec<Brick>) -> (n: u64)
    requires
        bricks@.len() <= 1_000_000,
    ensures
        n == alive_count(bricks@),
{
    let mut i: usize = bricks.len();
    let mut n: u64 = 0;
    proof {
        assert(alive_from(bricks@, bricks@.len() as int) == 0);
    }
    while i > 0
        invariant
            0 <= i <= bricks@.len(),
            bricks@.len() <= 1_000_000,
            n == alive_from(bricks@, i as int),
            n <= bricks@.len() - i,
        decreases i,
    {
        i = i - 1;
        if bricks[i].alive {
            n = n + 1;
        }
    }
    n
}

impl GameWorld {
    /// A fresh play field: the full brick grid standing, the ball at its
    /// start, the paddle centered, the score at zero and the lives at the
    /// configured count.
    pub fn new(cfg: &ArenaConfig) -> (w: GameWorld)
        requires
            cfg.well_formed(),
        ensures
            w.wf(),
            w.config == *cfg,
            w.score == 0,
            w.lives == cfg.initial_lives,
            w.paddle_x == 0,
            w.ball == (Ball { pos: cfg.ball_start, vel: cfg.ball_start_vel }),
            w.bricks@.len() == cfg.n_rows() * cfg.n_cols(),
            forall|i: int| 0 <= i < w.bricks@.len() ==> (#[trigger] w.bricks@[i]).alive,
            forall|row: int, col: int|
                0 <= row < cfg.n_rows() && 0 <= col < cfg.n_cols() ==> w.bricks@[row * cfg.n_cols()
                    + col].center == cfg.brick_center(row, col),
            alive_count(w.bricks@) == w.bricks@.len(),
    {
        let centers = crate::layout::brick_grid(cfg);
        let mut bricks: Vec<Brick> = Vec::new();
        let mut i: usize = 0;
        while i < centers.len()
            invariant
                0 <= i <= centers@.len(),
                bricks@.len() == i,
                forall|k: int|
                    0 <= k < i ==> #[trigger] bricks@[k] == (Brick {
                        center: centers@[k],
                        alive: true,
                    }),
            decreases centers@.len() - i,
        {
            bricks.push(Brick { center: centers[i], alive: true });
            i = i + 1;
        }
        proof {
            lemma_alive_from_full(bricks@, 0);
            vstd::arithmetic::mul::lemma_mul_inequality(cfg.n_rows(), 1000, cfg.n_cols());
            assert forall|row: int, col: int|
                0 <= row < cfg.n_rows() && 0 <= col < cfg.n_cols() implies bricks@[row
                * cfg.n_cols() + col].center == #[trigger] cfg.brick_center(row, col) by {
                crate::layout::lemma_row_major_index(row, col, cfg.n_rows(), cfg.n_cols());
            }
        }
        GameWorld {
            config: *cfg,
            ball: Ball { pos: cfg.ball_start, vel: cfg.ball_start_vel },
            paddle_x: 0,
            bricks,
            score: 0,
            lives: cfg.initial_lives,
        }
    }

    /// Resolution of one box collider against the current ball, mutating
    /// the ball and the lives and appending this collider's notifications,
    /// exactly as `resolve_box` says for a state with no outcome yet.
    fn resolve_box_exec(
        &mut self,
        events: &mut Vec<GameEvent>,
        center: Vec2,
        half: Vec2,
        deadly: bool,
    ) -> (oc: Option<EndCondition>)
        requires
            old(self).config.well_formed(),
            in_region(old(self).ball.pos),
            vel_in_limit(old(self).ball.vel),
            vec_in_range(center),
            0 <= half.x <= COORD_LIMIT,
            0 <= half.y <= COORD_LIMIT,
        ensures
            ({
                let rin = Resolution {
                    ball: old(self).ball,
                    bricks: old(self).bricks@,
                    score: old(self).score as int,
                    lives: old(self).lives as int,
                    events: old(events)@,
                    outcome: None,
                };
                let rout = resolve_box(rin, old(self).config, center, half, deadly);
                &&& final(self).ball == rout.ball
                &&& final(self).lives == rout.lives
                &&& final(events)@ == rout.events
                &&& oc == rout.outcome
            }),
            final(self).bricks == old(self).bricks,
            final(self).score == old(self).score,
            final(self).config == old(self).config,
            final(self).paddle_x == old(self).paddle_x,
    {
        match classify_collision(self.ball.pos, self.config.ball_radius, center, half) {
            Option::None => Option::None,
            Option::Some(side) => {
                events.push(GameEvent::Collision);
                if deadly {
                    if self.lives == 0 {
                        events.push(GameEvent::GameOver);
                        Some(EndCondition::GameOver)
                    } else {
                        self.lives = self.lives - 1;
                        self.ball = Ball {
                            pos: self.config.ball_start,
                            vel: self.config.ball_start_vel,
                        };
                        events.push(GameEvent::LostLife);
                        Option::None
                    }
                } else {
                    self.ball = Ball {
                        pos: self.ball.pos,
                        vel: reflect_velocity(self.ball.vel, side),
                    };
                    Option::None
                }
            },
        }
    }

    /// One fixed tick of active play, in the fixed phase order: integrate
    /// the ball, move the paddle, then resolve collisions collider by
    /// collider — bricks first, then the paddle, then the walls with the
    /// deadly bottom wall last. A win or a game over aborts the rest of the
    /// tick. The new state and the returned notifications are exactly what
    /// the `spec_tick` mirror says; on top of that the contract states the
    /// score accounting, the life accounting, and the win guarantee.
    #[verifier::loop_isolation(false)]
    #[verifier::rlimit(80)]
    pub fn tick(&mut self, input: PaddleInput, dt: u64) -> (r: TickResult)
        requires
            old(self).wf(),
            dt <= DT_MAX,
        ensures
            final(self).wf(),
            final(self).config == old(self).config,
            final(self).paddle_x == spec_move_paddle(
                old(self).config,
                old(self).paddle_x,
                input,
                dt,
            ),
            ({
                let res = spec_tick(*old(self), input, dt);
                &&& final(self).ball == res.ball
                &&& final(self).bricks@ == res.bricks
                &&& final(self).score == res.score
                &&& final(self).lives == res.lives
                &&& r.events@ == res.events
                &&& r.outcome == res.outcome
            }),
            old(self).score <= final(self).score,
            final(self).score == old(self).score + alive_count(old(self).bricks@) - alive_count(
                final(self).bricks@,
            ),
            old(self).lives - 1 <= final(self).lives <= old(self).lives,
            old(self).lives == 0 ==> final(self).lives == 0,
            r.outcome == Some(EndCondition::GameOver) ==> old(self).lives == 0 && final(self).lives
                == 0,
            alive_count(old(self).bricks@) > 0 && alive_count(final(self).bricks@) == 0
                ==> r.outcome == Some(EndCondition::Win),
            r.outcome == Some(EndCondition::Win) ==> alive_count(final(self).bricks@) == 0,
    {
        let ghost w0 = *self;
        proof {
            lemma_tick_props(w0, input, dt);
            lemma_alive_from_bounds(w0.bricks@, 0);
        }
        let cfg = self.config;
        // Integrate velocity.
        proof {
            assert(-100_000_000_000 <= self.ball.vel.x * (dt as i64) <= 100_000_000_000)
                by (nonlinear_arith)
                requires
                    -1_000_000 <= self.ball.vel.x <= 1_000_000,
                    0 <= (dt as i64) <= 100_000,
            ;
            assert(-100_000_000_000 <= self.ball.vel.y * (dt as i64) <= 100_000_000_000)
                by (nonlinear_arith)
                requires
                    -1_000_000 <= self.ball.vel.y <= 1_000_000,
                    0 <= (dt as i64) <= 100_000,
            ;
        }
        let nx = clamp_i64(
            self.ball.pos.x + self.ball.vel.x * (dt as i64),
            -REGION_LIMIT,
            REGION_LIMIT,
        );
        let ny = clamp_i64(
            self.ball.pos.y + self.ball.vel.y * (dt as i64),
            -REGION_LIMIT,
            REGION_LIMIT,
        );
        self.ball = Ball { pos: Vec2 { x: nx, y: ny }, vel: self.ball.vel };
        proof {
            assert(self.ball == spec_integrate(w0.ball, dt));
        }
        // Move the paddle.
        let dir: i64 = match input {
            PaddleInput::MoveLeft => -1,
            PaddleInput::MoveRight => 1,
            PaddleInput::Stay => 0,
        };
        let min_x = cfg.left + cfg.wall_thickness / 2 + cfg.paddle_half_x + cfg.paddle_padding;
        let max_x = cfg.right - cfg.wall_thickness / 2 - cfg.paddle_half_x - cfg.paddle_padding;
        proof {
            assert(-1_000_000 <= dir * cfg.paddle_speed <= 1_000_000 && -100_000_000_000 <= dir
                * cfg.paddle_speed * (dt as i64) <= 100_000_000_000) by (nonlinear_arith)
                requires
                    -1 <= dir <= 1,
                    0 < cfg.paddle_speed <= 1_000_000,
                    0 <= (dt as i64) <= 100_000,
            ;
        }
        let px = clamp_i64(self.paddle_x + dir * cfg.paddle_speed * (dt as i64), min_x, max_x);
        self.paddle_x = px;
        proof {
            assert(px as int == spec_move_paddle(cfg, w0.paddle_x, input, dt));
        }
        // Resolve collisions: bricks in index order.
        let ghost r0 = start_res(w0, dt);
        let mut events: Vec<GameEvent> = Vec::new();
        proof {
            assert(Resolution {
                ball: self.ball,
                bricks: self.bricks@,
                score: self.score as int,
                lives: self.lives as int,
                events: events@,
                outcome: None,
            } =~= r0);
        }
        let mut i: usize = 0;
        while i < self.bricks.len()
            invariant
                0 <= i <= self.bricks@.len(),
                self.config == cfg,
                self.bricks@.len() == w0.bricks@.len(),
                forall|k: int|
                    0 <= k < self.bricks@.len() ==> (#[trigger] self.bricks@[k]).center
                        == w0.bricks@[k].center,
                self.lives == w0.lives,
                self.paddle_x == px,
                in_region(self.ball.pos),
                vel_in_limit(self.ball.vel),
                w0.score <= self.score,
                self.score + alive_count(self.bricks@) == w0.score + alive_count(w0.bricks@),
                0 <= alive_count(self.bricks@),
                resolve_bricks(
                    Resolution {
                        ball: self.ball,
                        bricks: self.bricks@,
                        score: self.score as int,
                        lives: self.lives as int,
                        events: events@,
                        outcome: None,
                    },
                    cfg,
                    i as int,
                ) == resolve_bricks(r0, cfg, 0),
            decreases self.bricks@.len() - i,
        {
            let ghost cur = Resolution {
                ball: self.ball,
                bricks: self.bricks@,
                score: self.score as int,
                lives: self.lives as int,
                events: events@,
                outcome: None,
            };
            let brick = self.bricks[i];
            if brick.alive {
                match classify_collision(
                    self.ball.pos,
                    cfg.ball_radius,
                    brick.center,
                    Vec2 { x: cfg.brick_half_x, y: cfg.brick_half_y },
                ) {
                    Option::Some(side) => {
                        events.push(GameEvent::Collision);
                        self.bricks.set(i, Brick { center: brick.center, alive: false });
                        proof {
                            lemma_alive_from_update(
                                cur.bricks,
                                i as int,
                                Brick { center: brick.center, alive: false },
                                0,
                            );
                            lemma_alive_from_positive(cur.bricks, 0, i as int);
                        }
                        self.score = self.score + 1;
                        let n = count_alive(&self.bricks);
                        if n == 0 {
                            let ghost cur2 = Resolution {
                                ball: cur.ball,
                                bricks: self.bricks@,
                                score: self.score as int,
                                lives: cur.lives,
                                events: events@,
                                outcome: Some(EndCondition::Win),
                            };
                            proof {
                                assert(resolve_brick(cur, cfg, i as int) =~= cur2);
                                assert(resolve_bricks(cur, cfg, i as int) == resolve_bricks(
                                    cur2,
                                    cfg,
                                    i as int + 1,
                                ));
                                assert(resolve_bricks(cur2, cfg, i as int + 1) == cur2);
                                assert(resolve_bricks(r0, cfg, 0) == cur2);
                                assert(spec_tick(w0, input, dt) == cur2);
                            }
                            return TickResult { events, outcome: Some(EndCondition::Win) };
                        }
                        self.ball = Ball {
                            pos: self.ball.pos,
                            vel: reflect_velocity(self.ball.vel, side),
                        };
                        proof {
                            assert(resolve_brick(cur, cfg, i as int) =~= Resolution {
                                ball: self.ball,
                                bricks: self.bricks@,
                                score: self.score as int,
                                lives: self.lives as int,
                                events: events@,
                                outcome: None,
                            });
                        }
                    },
                    Option::None => {
                        proof {
                            assert(resolve_brick(cur, cfg, i as int) == cur);
                        }
                    },
                }
            } else {
                proof {
                    assert(resolve_brick(cur, cfg, i as int) == cur);
                }
            }
            i = i + 1;
        }
        proof {
            assert(resolve_bricks(
                Resolution {
                    ball: self.ball,
                    bricks: self.bricks@,
                    score: self.score as int,
                    lives: self.lives as int,
                    events: events@,
                    outcome: None,
                },
                cfg,
                i as int,
            ) == Resolution {
                ball: self.ball,
                bricks: self.bricks@,
                score: self.score as int,
                lives: self.lives as int,
                events: events@,
                outcome: None,
            });
        }
        // The paddle, then the walls; the deadly bottom wall comes last.
        let pc = Vec2 { x: px, y: cfg.bottom + cfg.paddle_floor_gap };
        let ph = Vec2 { x: cfg.paddle_half_x, y: cfg.paddle_half_y };
        let ghost g1 = resolve_bricks(r0, cfg, 0);
        let oc_paddle = self.resolve_box_exec(&mut events, pc, ph, false);
        proof {
            lemma_resolve_box_props(g1, cfg, paddle_center(cfg, px as int), paddle_half(cfg), false);
            assert(oc_paddle is None);
        }
        let ws = crate::layout::walls(&cfg);
        proof {
            crate::layout::lemma_div_bounds((cfg.top - cfg.bottom) as int, 2);
            crate::layout::lemma_div_bounds((cfg.right - cfg.left) as int, 2);
            crate::layout::lemma_div_bounds((cfg.right - cfg.left + cfg.wall_thickness) as int, 2);
            crate::layout::lemma_div_bounds((cfg.top - cfg.bottom + cfg.wall_thickness) as int, 2);
            crate::layout::lemma_div_bounds(cfg.wall_thickness as int, 2);
        }
        let ghost g2 = resolve_box(g1, cfg, paddle_center(cfg, px as int), paddle_half(cfg), false);
        let wall_l = ws[0];
        let oc_l = self.resolve_box_exec(&mut events, wall_l.center, wall_l.half, false);
        proof {
            lemma_resolve_box_props(g2, cfg, wall_l.center, wall_l.half, false);
            assert(oc_l is None);
        }
        let ghost g3 = resolve_box(g2, cfg, wall_l.center, wall_l.half, false);
        let wall_r = ws[1];
        let oc_r = self.resolve_box_exec(&mut events, wall_r.center, wall_r.half, false);
        proof {
            lemma_resolve_box_props(g3, cfg, wall_r.center, wall_r.half, false);
            assert(oc_r is None);
        }
        let ghost g4 = resolve_box(g3, cfg, wall_r.center, wall_r.half, false);
        let wall_t = ws[2];
        let oc_t = self.resolve_box_exec(&mut events, wall_t.center, wall_t.half, false);
        proof {
            lemma_resolve_box_props(g4, cfg, wall_t.center, wall_t.half, false);
            assert(oc_t is None);
        }
        let ghost g5 = resolve_box(g4, cfg, wall_t.center, wall_t.half, false);
        let wall_b = ws[3];
        let oc = self.resolve_box_exec(&mut events, wall_b.center, wall_b.half, true);
        proof {
            lemma_resolve_box_props(g5, cfg, wall_b.center, wall_b.half, true);
            assert(spec_tick(w0, input, dt) == resolve_box(g5, cfg, wall_b.center, wall_b.half, true));
        }
        TickResult { events, outcome: oc }
    }
}

} // verus!
