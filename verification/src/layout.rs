//! Arena layout: the configuration record with its validity predicate, the
//! four wall descriptors, and the centered brick grid.
//!
//! All distances are in subunits (thousandths of a unit); speeds are in units
//! per second, which equals subunits per millisecond; durations are in
//! milliseconds.

use vstd::prelude::*;
use crate::geometry::{Vec2, vec_in_range};

verus! {

/// Largest magnitude accepted for a layout coordinate or extent.
pub const LAYOUT_LIMIT: i64 = 100_000_000;

/// The simulation region: ball positions are confined to this magnitude.
pub const REGION_LIMIT: i64 = 100_000_000;

/// Largest velocity component magnitude, in units per second.
pub const VEL_LIMIT: i64 = 1_000_000;

/// Largest tick duration, in milliseconds.
pub const DT_MAX: u64 = 100_000;

/// A point lies inside the simulation region.
pub open spec fn in_region(v: Vec2) -> bool {
    -REGION_LIMIT <= v.x <= REGION_LIMIT && -REGION_LIMIT <= v.y <= REGION_LIMIT
}

/// A velocity respects the component limit.
pub open spec fn vel_in_limit(v: Vec2) -> bool {
    -VEL_LIMIT <= v.x <= VEL_LIMIT && -VEL_LIMIT <= v.y <= VEL_LIMIT
}

/// Which arena edge a wall guards.
#[derive(Clone, Copy, Debug, PartialEq, Eq, Structural)]
pub enum WallKind {
    Left,
    Right,
    Top,
    Bottom,
}

/// A wall collider: an axis-aligned box with a deadly flag. Only the bottom
/// wall is deadly — touching it costs a life instead of a bounce.
#[derive(Clone, Copy, Debug, PartialEq, Eq, Structural)]
pub struct Wall {
    pub kind: WallKind,
    pub center: Vec2,
    pub half: Vec2,
    pub deadly: bool,
}

/// Fixed arena parameters, set once at startup.
#[derive(Clone, Copy, Debug, PartialEq, Eq, Structural)]
pub struct ArenaConfig {
    /// x coordinate of the left wall's centerline.
    pub left: i64,
    /// x coordinate of the right wall's centerline.
    pub right: i64,
    /// y coordinate of the bottom wall's centerline.
    pub bottom: i64,
    /// y coordinate of the top wall's centerline.
    pub top: i64,
    pub wall_thickness: i64,
    pub paddle_half_x: i64,
    pub paddle_half_y: i64,
    /// Height of the paddle center above the bottom wall centerline.
    pub paddle_floor_gap: i64,
    /// Extra margin kept between the paddle and the side walls.
    pub paddle_padding: i64,
    /// Paddle speed in units per second.
    pub paddle_speed: i64,
    pub ball_radius: i64,
    pub ball_start: Vec2,
    /// Starting velocity; a reset restores exactly this vector.
    pub ball_start_vel: Vec2,
    pub brick_half_x: i64,
    pub brick_half_y: i64,
    /// Gap between neighboring bricks.
    pub brick_gap: i64,
    /// Gap kept between the brick field and the side walls.
    pub side_gap: i64,
    /// Gap kept between the brick field and the top wall.
    pub ceiling_gap: i64,
    /// Distance from the paddle center up to the lower edge of the bricks.
    pub paddle_brick_gap: i64,
    pub initial_lives: u64,
    /// Countdown shown before play begins, in milliseconds.
    pub start_delay_ms: u64,
    /// How long the final "GO!" overlay stays up, in milliseconds.
    pub go_display_ms: u64,
}

impl ArenaConfig {
    /// y coordinate of the paddle center.
    pub open spec fn paddle_y(self) -> int {
        self.bottom + self.paddle_floor_gap
    }

    /// Leftmost allowed paddle center: the paddle edge stays off the left
    /// wall's inner face by the padding margin.
    pub open spec fn paddle_min_x(self) -> int {
        self.left + self.wall_thickness / 2 + self.paddle_half_x + self.paddle_padding
    }

    /// Rightmost allowed paddle center.
    pub open spec fn paddle_max_x(self) -> int {
        self.right - self.wall_thickness / 2 - self.paddle_half_x - self.paddle_padding
    }

    /// Horizontal room available to the brick field.
    pub open spec fn avail_width(self) -> int {
        self.right - self.left - 2 * self.side_gap
    }

    /// y coordinate of the lower edge of the brick field.
    pub open spec fn bricks_bottom_edge(self) -> int {
        self.paddle_y() + self.paddle_brick_gap
    }

    /// Vertical room available to the brick field.
    pub open spec fn avail_height(self) -> int {
        self.top - self.bricks_bottom_edge() - self.ceiling_gap
    }

    /// Horizontal pitch of the grid: one brick plus one gap.
    pub open spec fn step_x(self) -> int {
        2 * self.brick_half_x + self.brick_gap
    }

    /// Vertical pitch of the grid.
    pub open spec fn step_y(self) -> int {
        2 * self.brick_half_y + self.brick_gap
    }

    /// Number of brick columns: as many pitches as fit the available width.
    pub open spec fn n_cols(self) -> int {
        self.avail_width() / self.step_x()
    }

    /// Number of brick rows.
    pub open spec fn n_rows(self) -> int {
        self.avail_height() / self.step_y()
    }

    /// Width covered by one full row of bricks with its inner gaps.
    pub open spec fn row_span(self) -> int {
        self.n_cols() * self.step_x() - self.brick_gap
    }

    /// x coordinate of the left edge of the grid, centered in the arena.
    pub open spec fn grid_left_edge(self) -> int {
        self.left + (self.right - self.left) / 2 - self.row_span() / 2
    }

    /// Center of the brick at `row` (from the bottom) and `col` (from the
    /// left).
    pub open spec fn brick_center(self, row: int, col: int) -> Vec2 {
        Vec2 {
            x: (self.grid_left_edge() + self.brick_half_x + col * self.step_x()) as i64,
            y: (self.bricks_bottom_edge() + self.brick_half_y + row * self.step_y()) as i64,
        }
    }

    /// Midpoint of the arena in x.
    pub open spec fn mid_x(self) -> int {
        self.left + (self.right - self.left) / 2
    }

    /// Midpoint of the arena in y.
    pub open spec fn mid_y(self) -> int {
        self.bottom + (self.top - self.bottom) / 2
    }

    /// Half extent of the horizontal walls: walls overrun the corners by
    /// half a thickness on each end so the ball cannot slip through.
    pub open spec fn wall_half_span_x(self) -> int {
        (self.right - self.left + self.wall_thickness) / 2
    }

    /// Half extent of the vertical walls.
    pub open spec fn wall_half_span_y(self) -> int {
        (self.top - self.bottom + self.wall_thickness) / 2
    }

    /// The wall descriptor for one arena edge. Only the bottom wall is
    /// deadly.
    pub open spec fn wall(self, kind: WallKind) -> Wall {
        match kind {
            WallKind::Left => Wall {
                kind,
                center: Vec2 { x: self.left, y: self.mid_y() as i64 },
                half: Vec2 {
                    x: (self.wall_thickness / 2) as i64,
                    y: self.wall_half_span_y() as i64,
                },
                deadly: false,
            },
            WallKind::Right => Wall {
                kind,
                center: Vec2 { x: self.right, y: self.mid_y() as i64 },
                half: Vec2 {
                    x: (self.wall_thickness / 2) as i64,
                    y: self.wall_half_span_y() as i64,
                },
                deadly: false,
            },
            WallKind::Top => Wall {
                kind,
                center: Vec2 { x: self.mid_x() as i64, y: self.top },
                half: Vec2 {
                    x: self.wall_half_span_x() as i64,
                    y: (self.wall_thickness / 2) as i64,
                },
                deadly: false,
            },
            WallKind::Bottom => Wall {
                kind,
                center: Vec2 { x: self.mid_x() as i64, y: self.bottom },
                half: Vec2 {
                    x: self.wall_half_span_x() as i64,
                    y: (self.wall_thickness / 2) as i64,
                },
                deadly: true,
            },
        }
    }

    /// Validity of a configuration. Checked once at startup; a violation is
    /// a configuration mistake, not a runtime condition.
    pub open spec fn well_formed(self) -> bool {
        &&& -LAYOUT_LIMIT <= self.left < self.right <= LAYOUT_LIMIT
        &&& -LAYOUT_LIMIT <= self.bottom < self.top <= LAYOUT_LIMIT
        &&& 0 < self.wall_thickness <= LAYOUT_LIMIT
        &&& 0 < self.paddle_half_x <= LAYOUT_LIMIT
        &&& 0 < self.paddle_half_y <= LAYOUT_LIMIT
        &&& 0 <= self.paddle_floor_gap <= LAYOUT_LIMIT
        &&& 0 <= self.paddle_padding <= LAYOUT_LIMIT
        &&& 0 < self.paddle_speed <= VEL_LIMIT
        &&& 0 < self.ball_radius <= LAYOUT_LIMIT
        &&& in_region(self.ball_start)
        &&& vel_in_limit(self.ball_start_vel)
        &&& 0 < self.brick_half_x <= LAYOUT_LIMIT
        &&& 0 < self.brick_half_y <= LAYOUT_LIMIT
        &&& 0 <= self.brick_gap <= LAYOUT_LIMIT
        &&& 0 <= self.side_gap <= LAYOUT_LIMIT
        &&& 0 <= self.ceiling_gap <= LAYOUT_LIMIT
        &&& 0 <= self.paddle_brick_gap <= LAYOUT_LIMIT
        &&& self.paddle_min_x() <= 0 <= self.paddle_max_x()
        &&& self.avail_width() > 0
        &&& self.avail_height() > 0
        &&& 1 <= self.n_cols() <= 1000
        &&& 1 <= self.n_rows() <= 1000
        &&& 1 <= self.initial_lives <= 1000
        &&& self.start_delay_ms <= 3_600_000
        &&& self.go_display_ms <= 3_600_000
    }
}

impl ArenaConfig {
    /// Runtime check of `well_formed`, for callers outside verified code: a
    /// configuration mistake is caught once, at startup. The field ranges
    /// are tested first so that the derived quantities cannot overflow.
    pub fn validate(&self) -> (b: bool)
        ensures
            b == self.well_formed(),
    {
        if !(-LAYOUT_LIMIT <= self.left && self.left < self.right && self.right <= LAYOUT_LIMIT) {
            return false;
        }
        if !(-LAYOUT_LIMIT <= self.bottom && self.bottom < self.top && self.top <= LAYOUT_LIMIT) {
            return false;
        }
        if !(0 < self.wall_thickness && self.wall_thickness <= LAYOUT_LIMIT) {
            return false;
        }
        if !(0 < self.paddle_half_x && self.paddle_half_x <= LAYOUT_LIMIT) {
            return false;
        }
        if !(0 < self.paddle_half_y && self.paddle_half_y <= LAYOUT_LIMIT) {
            return false;
        }
        if !(0 <= self.paddle_floor_gap && self.paddle_floor_gap <= LAYOUT_LIMIT) {
            return false;
        }
        if !(0 <= self.paddle_padding && self.paddle_padding <= LAYOUT_LIMIT) {
            return false;
        }
        if !(0 < self.paddle_speed && self.paddle_speed <= VEL_LIMIT) {
            return false;
        }
        if !(0 < self.ball_radius && self.ball_radius <= LAYOUT_LIMIT) {
            return false;
        }
        if !(-REGION_LIMIT <= self.ball_start.x && self.ball_start.x <= REGION_LIMIT
            && -REGION_LIMIT <= self.ball_start.y && self.ball_start.y <= REGION_LIMIT) {
            return false;
        }
        if !(-VEL_LIMIT <= self.ball_start_vel.x && self.ball_start_vel.x <= VEL_LIMIT
            && -VEL_LIMIT <= self.ball_start_vel.y && self.ball_start_vel.y <= VEL_LIMIT) {
            return false;
        }
        if !(0 < self.brick_half_x && self.brick_half_x <= LAYOUT_LIMIT) {
            return false;
        }
        if !(0 < self.brick_half_y && self.brick_half_y <= LAYOUT_LIMIT) {
            return false;
        }
        if !(0 <= self.brick_gap && self.brick_gap <= LAYOUT_LIMIT) {
            return false;
        }
        if !(0 <= self.side_gap && self.side_gap <= LAYOUT_LIMIT) {
            return false;
        }
        if !(0 <= self.ceiling_gap && self.ceiling_gap <= LAYOUT_LIMIT) {
            return false;
        }
        if !(0 <= self.paddle_brick_gap && self.paddle_brick_gap <= LAYOUT_LIMIT) {
            return false;
        }
        let min_x = self.left + self.wall_thickness / 2 + self.paddle_half_x
            + self.paddle_padding;
        let max_x = self.right - self.wall_thickness / 2 - self.paddle_half_x
            - self.paddle_padding;
        if !(min_x <= 0 && 0 <= max_x) {
            return false;
        }
        let avail_w = self.right - self.left - 2 * self.side_gap;
        let bottom_edge = self.bottom + self.paddle_floor_gap + self.paddle_brick_gap;
        let avail_h = self.top - bottom_edge - self.ceiling_gap;
        if !(avail_w > 0 && avail_h > 0) {
            return false;
        }
        let n_cols = avail_w / (2 * self.brick_half_x + self.brick_gap);
        let n_rows = avail_h / (2 * self.brick_half_y + self.brick_gap);
        if !(1 <= n_cols && n_cols <= 1000 && 1 <= n_rows && n_rows <= 1000) {
            return false;
        }
        if !(1 <= self.initial_lives && self.initial_lives <= 1000) {
            return false;
        }
        if !(self.start_delay_ms <= 3_600_000 && self.go_display_ms <= 3_600_000) {
            return false;
        }
        true
    }
}

/// The standard arena, written in subunits: a 900 by 600 unit arena, a 120
/// by 20 unit paddle moving at 500 units per second, a ball of radius 15,
/// 100 by 30 unit bricks with 5 unit gaps, three lives, and a three second
/// countdown with one second of "GO!".
pub open spec fn spec_standard_config() -> ArenaConfig {
    ArenaConfig {
        left: -450_000i64,
        right: 450_000,
        bottom: -300_000i64,
        top: 300_000,
        wall_thickness: 10_000,
        paddle_half_x: 60_000,
        paddle_half_y: 10_000,
        paddle_floor_gap: 60_000,
        paddle_padding: 10_000,
        paddle_speed: 500,
        ball_radius: 15_000,
        ball_start: Vec2 { x: 0, y: -50_000i64 },
        ball_start_vel: Vec2 { x: 283, y: -283i64 },
        brick_half_x: 50_000,
        brick_half_y: 15_000,
        brick_gap: 5_000,
        side_gap: 20_000,
        ceiling_gap: 20_000,
        paddle_brick_gap: 270_000,
        initial_lives: 3,
        start_delay_ms: 3_000,
        go_display_ms: 1_000,
    }
}

/// The standard arena configuration.
pub fn standard_config() -> (c: ArenaConfig)
    ensures
        c == spec_standard_config(),
        c.well_formed(),
{
    let c = ArenaConfig {
        left: -450_000i64,
        right: 450_000,
        bottom: -300_000i64,
        top: 300_000,
        wall_thickness: 10_000,
        paddle_half_x: 60_000,
        paddle_half_y: 10_000,
        paddle_floor_gap: 60_000,
        paddle_padding: 10_000,
        paddle_speed: 500,
        ball_radius: 15_000,
        ball_start: Vec2 { x: 0, y: -50_000i64 },
        ball_start_vel: Vec2 { x: 283, y: -283i64 },
        brick_half_x: 50_000,
        brick_half_y: 15_000,
        brick_gap: 5_000,
        side_gap: 20_000,
        ceiling_gap: 20_000,
        paddle_brick_gap: 270_000,
        initial_lives: 3,
        start_delay_ms: 3_000,
        go_display_ms: 1_000,
    };
    proof {
        assert(c.avail_width() == 860_000);
        assert(c.step_x() == 105_000);
        assert(c.n_cols() == 8);
        assert(c.bricks_bottom_edge() == 30_000);
        assert(c.avail_height() == 250_000);
        assert(c.step_y() == 35_000);
        assert(c.n_rows() == 7);
        assert(c.paddle_min_x() == -375_000);
        assert(c.paddle_max_x() == 375_000);
    }
    c
}

/// The four wall descriptors, in the fixed collider order `Left`, `Right`,
/// `Top`, `Bottom`; the deadly bottom wall comes last.
pub fn walls(cfg: &ArenaConfig) -> (r: Vec<Wall>)
    requires
        cfg.well_formed(),
    ensures
        r@.len() == 4,
        r@[0] == cfg.wall(WallKind::Left),
        r@[1] == cfg.wall(WallKind::Right),
        r@[2] == cfg.wall(WallKind::Top),
        r@[3] == cfg.wall(WallKind::Bottom),
{
    let mid_x = cfg.left + (cfg.right - cfg.left) / 2;
    let mid_y = cfg.bottom + (cfg.top - cfg.bottom) / 2;
    let span_x = (cfg.right - cfg.left + cfg.wall_thickness) / 2;
    let span_y = (cfg.top - cfg.bottom + cfg.wall_thickness) / 2;
    let half_t = cfg.wall_thickness / 2;
    let mut r: Vec<Wall> = Vec::new();
    r.push(
        Wall {
            kind: WallKind::Left,
            center: Vec2 { x: cfg.left, y: mid_y },
            half: Vec2 { x: half_t, y: span_y },
            deadly: false,
        },
    );
    r.push(
        Wall {
            kind: WallKind::Right,
            center: Vec2 { x: cfg.right, y: mid_y },
            half: Vec2 { x: half_t, y: span_y },
            deadly: false,
        },
    );
    r.push(
        Wall {
            kind: WallKind::Top,
            center: Vec2 { x: mid_x, y: cfg.top },
            half: Vec2 { x: span_x, y: half_t },
            deadly: false,
        },
    );
    r.push(
        Wall {
            kind: WallKind::Bottom,
            center: Vec2 { x: mid_x, y: cfg.bottom },
            half: Vec2 { x: span_x, y: half_t },
            deadly: true,
        },
    );
    r
}

/// Division facts used by the grid computation: a floor quotient of
/// non-negative operands is non-negative, shrinks, and multiplies back to at
/// most the dividend.
pub proof fn lemma_div_bounds(a: int, b: int)
    requires
        0 <= a,
        0 < b,
    ensures
        0 <= a / b,
        (a / b) * b <= a,
        a / b <= a,
{
    vstd::arithmetic::div_mod::lemma_div_pos_is_pos(a, b);
    vstd::arithmetic::div_mod::lemma_remainder(a, b);
    vstd::arithmetic::div_mod::lemma_div_nonincreasing(a, b);
}

/// A row-major index stays inside the grid.
pub proof fn lemma_row_major_index(rr: int, cc: int, rows: int, cols: int)
    requires
        0 <= rr < rows,
        0 <= cc < cols,
    ensures
        0 <= rr * cols + cc < rows * cols,
{
    assert(0 <= rr * cols + cc < rows * cols) by (nonlinear_arith)
        requires
            0 <= rr < rows,
            0 <= cc < cols,
    ;
}

/// Brick centers, row-major from the bottom-left: the brick at `row`, `col`
/// stands at index `row * n_cols + col`. Every center lies inside the
/// coordinate range of the collision tests.
#[verifier::loop_isolation(false)]
pub fn brick_grid(cfg: &ArenaConfig) -> (r: Vec<Vec2>)
    requires
        cfg.well_formed(),
    ensures
        r@.len() == cfg.n_rows() * cfg.n_cols(),
        forall|row: int, col: int|
            0 <= row < cfg.n_rows() && 0 <= col < cfg.n_cols() ==> r@[row * cfg.n_cols() + col]
                == cfg.brick_center(row, col),
        forall|i: int| 0 <= i < r@.len() ==> vec_in_range(r@[i]),
{
    let avail_w = cfg.right - cfg.left - 2 * cfg.side_gap;
    let bottom_edge = cfg.bottom + cfg.paddle_floor_gap + cfg.paddle_brick_gap;
    let avail_h = cfg.top - bottom_edge - cfg.ceiling_gap;
    let step_x = 2 * cfg.brick_half_x + cfg.brick_gap;
    let step_y = 2 * cfg.brick_half_y + cfg.brick_gap;
    let n_cols = avail_w / step_x;
    let n_rows = avail_h / step_y;
    proof {
        assert(n_cols == cfg.n_cols());
        assert(n_rows == cfg.n_rows());
        lemma_div_bounds(avail_w as int, step_x as int);
        lemma_div_bounds(avail_h as int, step_y as int);
        vstd::arithmetic::mul::lemma_mul_inequality(0, n_cols as int, step_x as int);
        vstd::arithmetic::mul::lemma_mul_inequality(0, n_rows as int, step_y as int);
        vstd::arithmetic::mul::lemma_mul_inequality(1, n_cols as int, step_x as int);
        vstd::arithmetic::mul::lemma_mul_inequality(1, n_rows as int, step_y as int);
        vstd::arithmetic::mul::lemma_mul_inequality(n_cols as int, 1000, step_x as int);
        vstd::arithmetic::mul::lemma_mul_inequality(n_rows as int, 1000, step_y as int);
    }
    let row_span = n_cols * step_x - cfg.brick_gap;
    proof {
        vstd::arithmetic::div_mod::lemma_div_is_ordered(
            (cfg.right - cfg.left) as int,
            200_000_000,
            2,
        );
        vstd::arithmetic::div_mod::lemma_div_pos_is_pos((cfg.right - cfg.left) as int, 2);
        vstd::arithmetic::div_mod::lemma_div_is_ordered(row_span as int, 200_000_000, 2);
        vstd::arithmetic::div_mod::lemma_div_pos_is_pos(row_span as int, 2);
    }
    let left_edge = cfg.left + (cfg.right - cfg.left) / 2 - row_span / 2;
    let offset_x = left_edge + cfg.brick_half_x;
    let offset_y = bottom_edge + cfg.brick_half_y;
    let mut r: Vec<Vec2> = Vec::new();
    let mut row: i64 = 0;
    while row < n_rows
        invariant
            0 <= row <= n_rows,
            r@.len() == row * n_cols,
            forall|rr: int, cc: int|
                0 <= rr < row && 0 <= cc < n_cols ==> r@[rr * cfg.n_cols() + cc]
                    == cfg.brick_center(rr, cc),
            forall|i: int| 0 <= i < r@.len() ==> vec_in_range(r@[i]),
        decreases n_rows - row,
    {
        let mut col: i64 = 0;
        while col < n_cols
            invariant
                0 <= row < n_rows,
                0 <= col <= n_cols,
                r@.len() == row * n_cols + col,
                forall|rr: int, cc: int|
                    0 <= rr < row && 0 <= cc < n_cols ==> r@[rr * cfg.n_cols() + cc]
                        == cfg.brick_center(rr, cc),
                forall|cc: int|
                    0 <= cc < col ==> r@[row * cfg.n_cols() + cc] == cfg.brick_center(
                        row as int,
                        cc,
                    ),
                forall|i: int| 0 <= i < r@.len() ==> vec_in_range(r@[i]),
            decreases n_cols - col,
        {
            proof {
                vstd::arithmetic::mul::lemma_mul_inequality(0, col as int, step_x as int);
                vstd::arithmetic::mul::lemma_mul_inequality(
                    col as int,
                    n_cols - 1,
                    step_x as int,
                );
                assert((n_cols - 1) * step_x == n_cols * step_x - step_x) by (nonlinear_arith);
                vstd::arithmetic::mul::lemma_mul_inequality(0, row as int, step_y as int);
                vstd::arithmetic::mul::lemma_mul_inequality(
                    row as int,
                    n_rows - 1,
                    step_y as int,
                );
                assert((n_rows - 1) * step_y == n_rows * step_y - step_y) by (nonlinear_arith);
            }
            let b = Vec2 { x: offset_x + col * step_x, y: offset_y + row * step_y };
            r.push(b);
            proof {
                assert forall|rr: int, cc: int|
                    0 <= rr < row && 0 <= cc < n_cols implies r@[rr * cfg.n_cols() + cc]
                    == #[trigger] cfg.brick_center(rr, cc) by {
                    lemma_row_major_index(rr, cc, row as int, cfg.n_cols());
                }
            }
            col = col + 1;
        }
        row = row + 1;
        proof {
            assert((row - 1) * n_cols + n_cols == row * n_cols) by (nonlinear_arith);
        }
    }
    r
}

} // verus!
