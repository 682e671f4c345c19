use vstd::prelude::*;

use crate::character::{input_dir_x, input_dir_y, direction_component, move_coord, moved_coord};
use crate::geom::{
    dist_between, dist_spec, dist_sq, lemma_component_within_dist, norm_sq, rect_wf, vec_wf,
    Recti, Vec2i,
};
use crate::grid::{is_first_pos_match, no_pos_match, same_frame, grid_wf, CropGrid};
use crate::plants::{VisualHandle, CELL_DIM};
use crate::units::{
    clamp_i64, clamp_spec, scale_mul_signed, scale_mul_signed_spec, scaled_ratio,
    scaled_ratio_spec, sqrt_floor, isqrt_u64, DT_MAX, PMAX, QMAX, SCALE, SCALE_SQ,
};

verus! {

/// How far beyond the screen a fleeing crow may travel before it is
/// turned around.
pub const SCREEN_BORDER_EXT: i64 = 25_000;

/// Side length of the player's square reach rectangle.
pub const REACH: i64 = 50_000;

/// Positions are kept this far inside the coordinate range so the reach
/// rectangle around them stays representable.
pub const PLAYER_POS_LIMIT: i64 = PMAX - REACH;

/// The player: a position, a speed, a reach rectangle and an image.
pub struct Player {
    pub speed: i64,
    pub pos: Vec2i,
    pub rect: Recti,
    pub texture: VisualHandle,
}

pub open spec fn player_wf(p: Player) -> bool {
    &&& 0 <= p.speed <= QMAX
    &&& -PLAYER_POS_LIMIT <= p.pos.x <= PLAYER_POS_LIMIT
    &&& -PLAYER_POS_LIMIT <= p.pos.y <= PLAYER_POS_LIMIT
    &&& rect_wf(p.rect)
}

/// The reach rectangle centred on a position.
pub open spec fn reach_rect_for(pos: Vec2i) -> Recti {
    Recti { x: (pos.x - REACH / 2) as i64, y: (pos.y - REACH / 2) as i64, w: REACH, h: REACH }
}

/// Where the player stands after one input tick: the direction scaled by
/// speed and time, with the reach rectangle recentred on the new spot.
pub open spec fn player_step(p: Player, dt: int, left: bool, right: bool, up: bool, down: bool) -> Player {
    let nx = moved_coord(
        p.pos.x as int,
        input_dir_x(left, right, up, down),
        p.speed as int,
        dt,
        PLAYER_POS_LIMIT as int,
    ) as i64;
    let ny = moved_coord(
        p.pos.y as int,
        input_dir_y(left, right, up, down),
        p.speed as int,
        dt,
        PLAYER_POS_LIMIT as int,
    ) as i64;
    Player {
        pos: Vec2i { x: nx, y: ny },
        rect: Recti {
            x: (nx - REACH / 2) as i64,
            y: (ny - REACH / 2) as i64,
            w: p.rect.w,
            h: p.rect.h,
        },
        ..p
    }
}

impl Player {
    pub fn new(speed: i64, texture: VisualHandle) -> (p: Player)
        requires
            0 <= speed <= QMAX,
        ensures
            p == (Player {
                speed,
                pos: Vec2i { x: 150_000, y: 150_000 },
                rect: reach_rect_for(Vec2i { x: 150_000, y: 150_000 }),
                texture,
            }),
            player_wf(p),
    {
        let pos = Vec2i { x: 150_000, y: 150_000 };
        let rect = Recti { x: pos.x - REACH / 2, y: pos.y - REACH / 2, w: REACH, h: REACH };
        Player { speed, pos, rect, texture }
    }

    /// The current reach rectangle, used to resolve grid actions.
    pub fn get_rect(&self) -> (r: Recti)
        ensures
            r == self.rect,
    {
        Recti { x: self.rect.x, y: self.rect.y, w: self.rect.w, h: self.rect.h }
    }

    /// Moves by the held direction keys and recentres the reach
    /// rectangle; `left`/`right` and `up`/`down` are the sampled key
    /// states for one tick of `dt` seconds.
    pub fn update(&mut self, dt: i64, left: bool, right: bool, up: bool, down: bool)
        requires
            player_wf(*old(self)),
            0 <= dt <= DT_MAX,
        ensures
            *final(self) == player_step(*old(self), dt as int, left, right, up, down),
            player_wf(*final(self)),
    {
        let dir_x = direction_component(left, right, up, down);
        let dir_y = direction_component(up, down, left, right);
        let nx = move_coord(self.pos.x, dir_x, self.speed, dt, PLAYER_POS_LIMIT);
        let ny = move_coord(self.pos.y, dir_y, self.speed, dt, PLAYER_POS_LIMIT);
        self.pos = Vec2i { x: nx, y: ny };
        self.rect.x = nx - REACH / 2;
        self.rect.y = ny - REACH / 2;
    }
}

/// A crow is close enough to steal within this distance of its target.
pub const GRAB_RAD: i64 = 100;

/// How much each velocity component grows per tick while fleeing.
pub const FLEE_ACCEL: i64 = 6_000;

/// A drawn flee direction is scaled up by this factor before the integer
/// normalisation, so that the rounding in the normalisation stays small
/// even for the shortest draws.
pub const FLEE_DRAW_BOOST: i64 = 1000;

/// A crow: an autonomous actor that picks a planted cell, steers toward
/// it, steals its plant and flees off-screen.
pub struct Crow {
    pub flyaway: bool,
    pub speed: i64,
    pub vel: Vec2i,
    pub pos: Vec2i,
    pub target: Option<Vec2i>,
    pub rect: Recti,
    pub texture: VisualHandle,
}

pub open spec fn crow_wf(c: Crow) -> bool {
    &&& 0 <= c.speed <= QMAX
    &&& vec_wf(c.pos)
    &&& -QMAX <= c.vel.x <= QMAX
    &&& -QMAX <= c.vel.y <= QMAX
    &&& match c.target {
        Some(t) => vec_wf(t),
        None => true,
    }
    &&& rect_wf(c.rect)
}

/// The screen rectangle grown by the border margin: a fleeing crow may
/// travel this far before it is turned around.
pub open spec fn in_ext_bounds(p: Vec2i, screen_w: int, screen_h: int) -> bool {
    &&& -SCREEN_BORDER_EXT <= p.x <= screen_w + SCREEN_BORDER_EXT
    &&& -SCREEN_BORDER_EXT <= p.y <= screen_h + SCREEN_BORDER_EXT
}

/// One tick of motion: inside the extended screen bounds the position
/// integrates the velocity; outside, the crow is clamped just inside the
/// bounds, stopped, and its flight ends.
pub open spec fn crow_fly(c: Crow, dt: int, screen_w: int, screen_h: int) -> Crow {
    if in_ext_bounds(c.pos, screen_w, screen_h) {
        Crow {
            pos: Vec2i {
                x: (c.pos.x + scale_mul_signed_spec(c.vel.x as int, dt)) as i64,
                y: (c.pos.y + scale_mul_signed_spec(c.vel.y as int, dt)) as i64,
            },
            ..c
        }
    } else {
        Crow {
            pos: Vec2i {
                x: clamp_spec(
                    c.pos.x as int,
                    -SCREEN_BORDER_EXT + SCALE,
                    screen_w + SCREEN_BORDER_EXT - SCALE,
                ) as i64,
                y: clamp_spec(
                    c.pos.y as int,
                    -SCREEN_BORDER_EXT + SCALE,
                    screen_h + SCREEN_BORDER_EXT - SCALE,
                ) as i64,
            },
            vel: Vec2i { x: 0, y: 0 },
            flyaway: false,
            ..c
        }
    }
}

/// A fleeing crow accelerates: both velocity components grow each tick,
/// saturating at the velocity bound.
pub open spec fn crow_accelerate(c: Crow) -> Crow {
    Crow {
        vel: Vec2i {
            x: clamp_spec(c.vel.x + FLEE_ACCEL, -QMAX as int, QMAX as int) as i64,
            y: clamp_spec(c.vel.y + FLEE_ACCEL, -QMAX as int, QMAX as int) as i64,
        },
        ..c
    }
}

/// The flee velocity for a drawn direction: the direction, scaled up by
/// the boost for precision, normalised to the crow's speed; a zero draw
/// falls back to flying right.
pub open spec fn flee_vel_spec(dir: Vec2i, speed: i64) -> Vec2i {
    let bx = dir.x * FLEE_DRAW_BOOST;
    let by = dir.y * FLEE_DRAW_BOOST;
    let len = sqrt_floor((bx * bx + by * by) as nat) as int;
    if len == 0 {
        Vec2i { x: speed, y: 0 }
    } else {
        Vec2i {
            x: scaled_ratio_spec(bx, speed as int, len) as i64,
            y: scaled_ratio_spec(by, speed as int, len) as i64,
        }
    }
}

/// The approach velocity: a unit vector toward the target, scaled by a
/// speed throttled down near the target — `speed * dist * GRAB_RAD`,
/// clamped to `[0, speed]` — so the crow decelerates as it closes in.
pub open spec fn steer_spec(pos: Vec2i, target: Vec2i, speed: i64) -> Vec2i {
    let d = dist_spec(pos, target);
    let cs = clamp_spec(speed * d * (GRAB_RAD as int) / (SCALE_SQ as int), 0, speed as int);
    if d == 0 {
        Vec2i { x: 0, y: 0 }
    } else {
        Vec2i {
            x: scaled_ratio_spec(target.x - pos.x, cs, d) as i64,
            y: scaled_ratio_spec(target.y - pos.y, cs, d) as i64,
        }
    }
}

/// After a theft the crow flees along some direction it could have
/// drawn: the tick's outcome is the determined flight for that draw,
/// with the target dropped and the flight flag set.
pub open spec fn fled_from_draw(
    before: Crow,
    after: Crow,
    dir: Vec2i,
    dt: int,
    screen_w: int,
    screen_h: int,
) -> bool {
    &&& -SCALE <= dir.x < SCALE
    &&& -SCALE <= dir.y < SCALE
    &&& after == crow_fly(
        Crow { target: None, vel: flee_vel_spec(dir, before.speed), flyaway: true, ..before },
        dt,
        screen_w,
        screen_h,
    )
}

/// The tick's seeking outcome for one triple of drawn cell indices: the
/// adopted target is the centre of the first sampled cell that holds a
/// plant, and stays absent exactly when no sampled cell does.
pub open spec fn sought_with(g: CropGrid, samples: Seq<usize>, t: Option<Vec2i>) -> bool {
    &&& samples.len() == 3
    &&& forall|k: int| 0 <= k < samples.len() ==> (#[trigger] samples[k]) < g.crops@.len()
    &&& (t is None <==> no_sample_hit(g, samples))
    &&& forall|k: int|
        #[trigger] sample_hit(g, samples, k) ==> t == Some(g.crops@[samples[k] as int].pos)
}

/// Sample `k` is the first of the drawn cell indices that holds a plant.
pub open spec fn sample_hit(g: CropGrid, samples: Seq<usize>, k: int) -> bool {
    &&& 0 <= k < samples.len()
    &&& g.crops@[samples[k] as int].plant is Some
    &&& forall|j: int| 0 <= j < k ==> g.crops@[(#[trigger] samples[j]) as int].plant is None
}

/// None of the drawn cell indices holds a plant.
pub open spec fn no_sample_hit(g: CropGrid, samples: Seq<usize>) -> bool {
    forall|j: int| 0 <= j < samples.len() ==> g.crops@[(#[trigger] samples[j]) as int].plant is None
}

/// Relies on macroquad::rand::gen_range, which for integer types scales a
/// uniform draw from [0, 1) into [low, high): used to pick a cell index.
/// The bound on `n` keeps that scaling within the range where the
/// floating-point steps it takes cannot reach `n` itself.
#[verifier::external_body]
fn sample_index(n: usize) -> (r: usize)
    requires
        1 <= n <= 1_000_000,
    ensures
        r < n,
{
    macroquad::rand::gen_range(0, n)
}

/// Relies on macroquad::rand::gen_range, which for integer types scales a
/// uniform draw from [0, 1) into [low, high) in floating point and casts
/// back, truncating toward zero: used to pick a flee direction component.
/// The magnitude bounds keep the scaling exact enough that the value
/// stays below `high`, and `high` must be positive because truncation
/// toward zero rounds a negative value up, which for `high <= 0` could
/// land on `high` itself.
#[verifier::external_body]
fn sample_range(low: i64, high: i64) -> (r: i64)
    requires
        -1_000_000 <= low < high <= 1_000_000,
        1 <= high,
    ensures
        low <= r < high,
{
    macroquad::rand::gen_range(low, high)
}

/// One velocity component of a tick's displacement, within one tick's
/// travel bound.
fn step_displacement(vel: i64, dt: i64) -> (r: i64)
    requires
        -QMAX <= vel <= QMAX,
        0 <= dt <= DT_MAX,
    ensures
        r == scale_mul_signed_spec(vel as int, dt as int),
        -100_000_000 <= r <= 100_000_000,
{
    proof {
        assert(-(QMAX * DT_MAX) <= vel * dt <= QMAX * DT_MAX) by (nonlinear_arith)
            requires
                -QMAX <= vel <= QMAX,
                0 <= dt <= DT_MAX,
        ;
        if vel >= 0 {
            vstd::arithmetic::div_mod::lemma_div_pos_is_pos(vel * dt, SCALE as int);
            vstd::arithmetic::div_mod::lemma_div_is_ordered(vel * dt, QMAX * DT_MAX, SCALE as int);
        } else {
            assert((-vel) * dt == -(vel * dt)) by (nonlinear_arith);
            vstd::arithmetic::div_mod::lemma_div_pos_is_pos((-vel) * dt, SCALE as int);
            vstd::arithmetic::div_mod::lemma_div_is_ordered(
                (-vel) * dt,
                QMAX * DT_MAX,
                SCALE as int,
            );
        }
    }
    scale_mul_signed(vel, dt)
}

/// The flee velocity for a drawn direction.
fn flee_velocity(dir: Vec2i, speed: i64) -> (v: Vec2i)
    requires
        -SCALE <= dir.x <= SCALE,
        -SCALE <= dir.y <= SCALE,
        0 <= speed <= QMAX,
    ensures
        v == flee_vel_spec(dir, speed),
        -speed <= v.x <= speed,
        -speed <= v.y <= speed,
{
    let bx = dir.x * FLEE_DRAW_BOOST;
    let by = dir.y * FLEE_DRAW_BOOST;
    proof {
        assert(0 <= bx * bx <= 1_000_000_000_000int && 0 <= by * by <= 1_000_000_000_000int)
            by (nonlinear_arith)
            requires
                -1_000_000 <= bx <= 1_000_000,
                -1_000_000 <= by <= 1_000_000,
        ;
    }
    let sq: i64 = bx * bx + by * by;
    let len = isqrt_u64(sq as u64);
    proof {
        assert(sq as u64 == sq);
        assert(len < 600_000_000) by (nonlinear_arith)
            requires
                len * len <= 2_000_000_000_000,
        ;
    }
    let len_i = len as i64;
    if len_i == 0 {
        Vec2i { x: speed, y: 0 }
    } else {
        proof {
            lemma_dir_component_within(bx as int, by as int, len_i as int);
            assert(by * by + bx * bx == bx * bx + by * by);
            lemma_dir_component_within(by as int, bx as int, len_i as int);
        }
        Vec2i {
            x: scaled_ratio(bx, speed, len_i),
            y: scaled_ratio(by, speed, len_i),
        }
    }
}

/// A component of a vector does not exceed the floor square root of the
/// summed squares.
proof fn lemma_dir_component_within(a: int, b: int, len: int)
    requires
        len == sqrt_floor((a * a + b * b) as nat) as int,
    ensures
        -len <= a <= len,
{
    assert(a * a >= 0 && b * b >= 0) by (nonlinear_arith);
    let s = a * a + b * b;
    crate::units::lemma_sqrt_floor_bounds(s as nat);
    if a > len {
        assert(a * a >= (len + 1) * (len + 1)) by (nonlinear_arith)
            requires
                a >= len + 1,
                len >= 0,
        ;
        assert(a * a <= s) by (nonlinear_arith)
            requires
                s == a * a + b * b,
                b * b >= 0,
        ;
    }
    if a < -len {
        assert(a * a >= (len + 1) * (len + 1)) by (nonlinear_arith)
            requires
                a <= -(len + 1),
                len >= 0,
        ;
        assert(a * a <= s) by (nonlinear_arith)
            requires
                s == a * a + b * b,
                b * b >= 0,
        ;
    }
}

impl Crow {
    pub fn new(speed: i64, pos: Vec2i, texture: VisualHandle) -> (c: Crow)
        requires
            0 <= speed <= QMAX,
            vec_wf(pos),
        ensures
            c == (Crow {
                flyaway: false,
                speed,
                vel: Vec2i { x: 0, y: 0 },
                pos,
                target: None,
                rect: Recti { x: pos.x, y: pos.y, w: CELL_DIM, h: CELL_DIM },
                texture,
            }),
            crow_wf(c),
    {
        let rect = Recti { x: pos.x, y: pos.y, w: CELL_DIM, h: CELL_DIM };
        Crow { flyaway: false, speed, vel: Vec2i { x: 0, y: 0 }, pos, target: None, rect, texture }
    }

    pub fn get_rect(&self) -> (r: Recti)
        ensures
            r == self.rect,
    {
        Recti { x: self.rect.x, y: self.rect.y, w: self.rect.w, h: self.rect.h }
    }

    /// Integrates one tick of motion, turning the crow around when it has
    /// left the extended screen bounds.
    pub fn fly(&mut self, dt: i64, screen_w: i64, screen_h: i64)
        requires
            crow_wf(*old(self)),
            0 <= dt <= DT_MAX,
            0 <= screen_w <= QMAX,
            0 <= screen_h <= QMAX,
        ensures
            *final(self) == crow_fly(*old(self), dt as int, screen_w as int, screen_h as int),
            crow_wf(*final(self)),
    {
        let inside_x = -SCREEN_BORDER_EXT <= self.pos.x && self.pos.x <= screen_w
            + SCREEN_BORDER_EXT;
        let inside_y = -SCREEN_BORDER_EXT <= self.pos.y && self.pos.y <= screen_h
            + SCREEN_BORDER_EXT;
        if inside_x && inside_y {
            let dx = step_displacement(self.vel.x, dt);
            let dy = step_displacement(self.vel.y, dt);
            self.pos = Vec2i { x: self.pos.x + dx, y: self.pos.y + dy };
        } else {
            let nx = clamp_i64(
                self.pos.x,
                -SCREEN_BORDER_EXT + SCALE,
                screen_w + SCREEN_BORDER_EXT - SCALE,
            );
            let ny = clamp_i64(
                self.pos.y,
                -SCREEN_BORDER_EXT + SCALE,
                screen_h + SCREEN_BORDER_EXT - SCALE,
            );
            self.pos = Vec2i { x: nx, y: ny };
            self.vel = Vec2i { x: 0, y: 0 };
            self.flyaway = false;
        }
    }

    /// Looks through the drawn cell indices and adopts the centre of the
    /// first sampled cell that holds a plant; yields nothing when no
    /// sampled cell does.
    pub fn find_target(&self, grid: &CropGrid, samples: &Vec<usize>) -> (t: Option<Vec2i>)
        requires
            grid_wf(*grid),
            forall|k: int| 0 <= k < samples@.len() ==> (#[trigger] samples@[k]) < grid.crops@.len(),
        ensures
            no_sample_hit(*grid, samples@) <==> t is None,
            forall|k: int|
                sample_hit(*grid, samples@, k) ==> t == Some(
                    grid.crops@[samples@[k] as int].pos,
                ),
            match t {
                Some(p) => {
                    &&& vec_wf(p)
                    &&& exists|i: int|
                        0 <= i < grid.crops@.len() && (#[trigger] grid.crops@[i]).plant is Some
                            && p == grid.crops@[i].pos
                },
                None => true,
            },
    {
        let n = samples.len();
        let mut k: usize = 0;
        while k < n
            invariant
                grid_wf(*grid),
                forall|j: int| 0 <= j < samples@.len() ==> (#[trigger] samples@[j]) < grid.crops@.len(),
                n == samples@.len(),
                k <= n,
                forall|j: int|
                    0 <= j < k ==> grid.crops@[(#[trigger] samples@[j]) as int].plant is None,
            decreases n - k,
        {
            let idx = samples[k];
            if grid.crops[idx].plant.is_some() {
                return Some(grid.crops[idx].pos);
            }
            k = k + 1;
        }
        None
    }

    /// One fully determined tick of the crow's state machine, taking the
    /// tick's random draws as arguments: the sampled cell indices for
    /// seeking, and the direction drawn for a flight after a theft.
    pub fn step(
        &mut self,
        dt: i64,
        grid: &mut CropGrid,
        samples: &Vec<usize>,
        dir: Vec2i,
        screen_w: i64,
        screen_h: i64,
    )
        requires
            crow_wf(*old(self)),
            grid_wf(*old(grid)),
            0 <= dt <= DT_MAX,
            0 <= screen_w <= QMAX,
            0 <= screen_h <= QMAX,
            forall|k: int|
                0 <= k < samples@.len() ==> (#[trigger] samples@[k]) < old(grid).crops@.len(),
            -SCALE <= dir.x <= SCALE,
            -SCALE <= dir.y <= SCALE,
        ensures
            crow_wf(*final(self)),
            grid_wf(*final(grid)),
            same_frame(*old(grid), *final(grid)),
            old(self).flyaway ==> *final(grid) == *old(grid) && *final(self) == crow_fly(
                crow_accelerate(*old(self)),
                dt as int,
                screen_w as int,
                screen_h as int,
            ),
            !old(self).flyaway && old(self).target is None ==> *final(grid) == *old(grid) && (
            final(self).target is None <==> no_sample_hit(*old(grid), samples@)) && (forall|k: int|
                sample_hit(*old(grid), samples@, k) ==> final(self).target == Some(
                    old(grid).crops@[samples@[k] as int].pos,
                )) && (final(self).target is Some ==> exists|i: int|
                0 <= i < old(grid).crops@.len() && (#[trigger] old(grid).crops@[i]).plant is Some
                    && final(self).target == Some(old(grid).crops@[i].pos)) && *final(self)
                == crow_fly(
                Crow { target: final(self).target, ..*old(self) },
                dt as int,
                screen_w as int,
                screen_h as int,
            ),
            !old(self).flyaway && old(self).target is Some && dist_spec(
                old(self).pos,
                old(self).target.unwrap(),
            ) <= GRAB_RAD ==> (forall|i: int|
                is_first_pos_match(*old(grid), old(self).target.unwrap(), i)
                    ==> final(grid).crops@ == old(grid).crops@.update(
                    i,
                    crate::plants::cell_steal(old(grid).crops@[i]),
                )) && (no_pos_match(*old(grid), old(self).target.unwrap()) ==> final(grid).crops@
                == old(grid).crops@) && *final(self) == crow_fly(
                Crow {
                    target: None,
                    vel: flee_vel_spec(dir, old(self).speed),
                    flyaway: true,
                    ..*old(self)
                },
                dt as int,
                screen_w as int,
                screen_h as int,
            ),
            !old(self).flyaway && old(self).target is Some && dist_spec(
                old(self).pos,
                old(self).target.unwrap(),
            ) > GRAB_RAD ==> *final(grid) == *old(grid) && *final(self) == crow_fly(
                Crow {
                    vel: steer_spec(old(self).pos, old(self).target.unwrap(), old(self).speed),
                    ..*old(self)
                },
                dt as int,
                screen_w as int,
                screen_h as int,
            ),
    {
        if self.flyaway {
            let nvx = clamp_i64(self.vel.x + FLEE_ACCEL, -QMAX, QMAX);
            let nvy = clamp_i64(self.vel.y + FLEE_ACCEL, -QMAX, QMAX);
            self.vel = Vec2i { x: nvx, y: nvy };
            self.fly(dt, screen_w, screen_h);
        } else {
            let target_now = self.target;
            match target_now {
                None => {
                    let found = self.find_target(grid, samples);
                    self.target = found;
                    self.fly(dt, screen_w, screen_h);
                },
                Some(t) => {
                    let d = dist_between(&self.pos, &t);
                    if d <= GRAB_RAD {
                        grid.steal_from_cell(t);
                        self.target = None;
                        self.vel = flee_velocity(dir, self.speed);
                        self.flyaway = true;
                        self.fly(dt, screen_w, screen_h);
                    } else {
                        self.vel = steer(self.pos, t, self.speed);
                        self.fly(dt, screen_w, screen_h);
                    }
                },
            }
        }
    }

    /// One tick of the crow against the shared grid: draws the sampled
    /// cell indices and a flee direction, then takes the determined step.
    /// What depended on the draws is stated for every outcome: the new
    /// target is the seeking outcome for some admissible triple of drawn
    /// indices, so it is the centre of some planted cell; and a flight
    /// after a theft is the determined flight for some admissible drawn
    /// direction, whose speed stays within fixed-point rounding of the
    /// crow's own.
    pub fn update(&mut self, dt: i64, grid: &mut CropGrid, screen_w: i64, screen_h: i64)
        requires
            crow_wf(*old(self)),
            grid_wf(*old(grid)),
            0 <= dt <= DT_MAX,
            0 <= screen_w <= QMAX,
            0 <= screen_h <= QMAX,
        ensures
            crow_wf(*final(self)),
            grid_wf(*final(grid)),
            same_frame(*old(grid), *final(grid)),
            old(self).flyaway ==> *final(grid) == *old(grid) && *final(self) == crow_fly(
                crow_accelerate(*old(self)),
                dt as int,
                screen_w as int,
                screen_h as int,
            ),
            !old(self).flyaway && old(self).target is None ==> *final(grid) == *old(grid) && (
            exists|drawn: Seq<usize>|
                sought_with(*old(grid), drawn, final(self).target)) && (final(self).target is Some
                ==> exists|i: int|
                0 <= i < old(grid).crops@.len() && (#[trigger] old(grid).crops@[i]).plant is Some
                    && final(self).target == Some(old(grid).crops@[i].pos)) && *final(self)
                == crow_fly(
                Crow { target: final(self).target, ..*old(self) },
                dt as int,
                screen_w as int,
                screen_h as int,
            ),
            !old(self).flyaway && old(self).target is Some && dist_spec(
                old(self).pos,
                old(self).target.unwrap(),
            ) <= GRAB_RAD ==> (forall|i: int|
                is_first_pos_match(*old(grid), old(self).target.unwrap(), i)
                    ==> final(grid).crops@ == old(grid).crops@.update(
                    i,
                    crate::plants::cell_steal(old(grid).crops@[i]),
                )) && (no_pos_match(*old(grid), old(self).target.unwrap()) ==> final(grid).crops@
                == old(grid).crops@) && (exists|drawn: Vec2i|
                fled_from_draw(
                    *old(self),
                    *final(self),
                    drawn,
                    dt as int,
                    screen_w as int,
                    screen_h as int,
                )),
            !old(self).flyaway && old(self).target is Some && dist_spec(
                old(self).pos,
                old(self).target.unwrap(),
            ) > GRAB_RAD ==> *final(grid) == *old(grid) && *final(self) == crow_fly(
                Crow {
                    vel: steer_spec(old(self).pos, old(self).target.unwrap(), old(self).speed),
                    ..*old(self)
                },
                dt as int,
                screen_w as int,
                screen_h as int,
            ),
    {
        let n = grid.crops.len();
        let mut samples: Vec<usize> = Vec::new();
        samples.push(sample_index(n));
        samples.push(sample_index(n));
        samples.push(sample_index(n));
        let dir = Vec2i { x: sample_range(-SCALE, SCALE), y: sample_range(-SCALE, SCALE) };
        self.step(dt, grid, &samples, dir, screen_w, screen_h);
        proof {
            if !old(self).flyaway {
                if old(self).target is None {
                    assert(sought_with(*old(grid), samples@, self.target));
                } else if dist_spec(old(self).pos, old(self).target.unwrap()) <= GRAB_RAD {
                    assert(fled_from_draw(
                        *old(self),
                        *self,
                        dir,
                        dt as int,
                        screen_w as int,
                        screen_h as int,
                    ));
                }
            }
        }
    }
}

/// The flee velocity's squared length stays within integer rounding of
/// the squared speed: it exceeds the squared speed by at most one
/// five-hundredth of it, and falls short of it by at most four times the
/// speed and one — as close to the speed as the fixed-point
/// normalisation allows.
pub proof fn lemma_flee_vel_magnitude(dir: Vec2i, speed: i64)
    requires
        -SCALE <= dir.x <= SCALE,
        -SCALE <= dir.y <= SCALE,
        0 <= speed <= QMAX,
    ensures
        speed * speed - 4 * speed - 1 <= norm_sq(flee_vel_spec(dir, speed)),
        norm_sq(flee_vel_spec(dir, speed)) <= speed * speed + 2 * speed * speed / 1000,
{
    let s = speed as int;
    let bx = dir.x * FLEE_DRAW_BOOST;
    let by = dir.y * FLEE_DRAW_BOOST;
    assert(bx * bx >= 0 && by * by >= 0) by (nonlinear_arith);
    let sum = bx * bx + by * by;
    let len = sqrt_floor(sum as nat) as int;
    crate::units::lemma_sqrt_floor_bounds(sum as nat);
    assert(0 <= s * s) by (nonlinear_arith)
        requires
            0 <= s,
    ;
    assert(2 * s * s == 2 * (s * s)) by (nonlinear_arith);
    vstd::arithmetic::div_mod::lemma_div_pos_is_pos(2 * (s * s), 1000);
    let v = flee_vel_spec(dir, speed);
    if len == 0 {
        assert(v == (Vec2i { x: speed, y: 0 }));
        assert(norm_sq(v) == s * s);
    } else {
        // a non-zero draw has at least one whole boosted component
        assert(sum > 0);
        assert(dir.x != 0 || dir.y != 0) by {
            if dir.x == 0 && dir.y == 0 {
                assert(bx * bx == 0) by (nonlinear_arith)
                    requires
                        bx == 0,
                ;
                assert(by * by == 0) by (nonlinear_arith)
                    requires
                        by == 0,
                ;
            }
        };
        if dir.x != 0 {
            assert(bx * bx >= 1_000_000) by (nonlinear_arith)
                requires
                    bx >= 1000 || bx <= -1000,
            ;
        } else {
            assert(by * by >= 1_000_000) by (nonlinear_arith)
                requires
                    by >= 1000 || by <= -1000,
            ;
        }
        assert(sum >= 1_000_000);
        // so the boosted length is at least the boost itself
        if len < 1000 {
            assert((len + 1) * (len + 1) <= 1_000_000) by (nonlinear_arith)
                requires
                    0 <= len + 1 <= 1000,
            ;
        }
        assert(len >= 1000);
        let ax = if bx >= 0 { bx } else { -bx };
        let ay = if by >= 0 { by } else { -by };
        assert(ax * ax == bx * bx) by (nonlinear_arith)
            requires
                ax == bx || ax == -bx,
        ;
        assert(ay * ay == by * by) by (nonlinear_arith)
            requires
                ay == by || ay == -by,
        ;
        lemma_dir_component_within(bx, by, len);
        assert(by * by + bx * bx == bx * bx + by * by);
        lemma_dir_component_within(by, bx, len);
        let va = ax * s / len;
        let vb = ay * s / len;
        assert(0 <= ax * s && 0 <= ay * s) by (nonlinear_arith)
            requires
                0 <= ax,
                0 <= ay,
                0 <= s,
        ;
        vstd::arithmetic::div_mod::lemma_div_pos_is_pos(ax * s, len);
        vstd::arithmetic::div_mod::lemma_div_pos_is_pos(ay * s, len);
        // the velocity components are these quotients, up to sign
        crate::units::lemma_scaled_ratio_bounds(bx, s, len);
        crate::units::lemma_scaled_ratio_bounds(by, s, len);
        if bx >= 0 {
            assert(v.x == va);
        } else {
            assert(v.x == -va);
        }
        if by >= 0 {
            assert(v.y == vb);
        } else {
            assert(v.y == -vb);
        }
        assert(v.x * v.x == va * va) by (nonlinear_arith)
            requires
                v.x == va || v.x == -va,
        ;
        assert(v.y * v.y == vb * vb) by (nonlinear_arith)
            requires
                v.y == vb || v.y == -vb,
        ;
        let n = va * va + vb * vb;
        assert(norm_sq(v) == n);
        assert(va <= s && vb <= s);
        // bracket each product of component and speed between quotient
        // multiples of the length
        vstd::arithmetic::div_mod::lemma_fundamental_div_mod(ax * s, len);
        vstd::arithmetic::div_mod::lemma_mod_division_less_than_divisor(ax * s, len);
        vstd::arithmetic::div_mod::lemma_fundamental_div_mod(ay * s, len);
        vstd::arithmetic::div_mod::lemma_mod_division_less_than_divisor(ay * s, len);
        assert(len * (va + 1) == len * va + len) by (nonlinear_arith);
        assert(len * (vb + 1) == len * vb + len) by (nonlinear_arith);
        assert(len * va <= ax * s < len * (va + 1));
        assert(len * vb <= ay * s < len * (vb + 1));
        // upper bound: the squared length is at most the true ratio
        assert(0 <= len * va && 0 <= len * vb) by (nonlinear_arith)
            requires
                0 <= va,
                0 <= vb,
                0 <= len,
        ;
        assert((len * va) * (len * va) <= (ax * s) * (ax * s)) by (nonlinear_arith)
            requires
                0 <= len * va,
                len * va <= ax * s,
        ;
        assert((len * vb) * (len * vb) <= (ay * s) * (ay * s)) by (nonlinear_arith)
            requires
                0 <= len * vb,
                len * vb <= ay * s,
        ;
        assert((len * va) * (len * va) == (len * len) * (va * va)) by (nonlinear_arith);
        assert((len * vb) * (len * vb) == (len * len) * (vb * vb)) by (nonlinear_arith);
        assert((ax * s) * (ax * s) == (ax * ax) * (s * s)) by (nonlinear_arith);
        assert((ay * s) * (ay * s) == (ay * ay) * (s * s)) by (nonlinear_arith);
        assert((len * len) * (va * va) + (len * len) * (vb * vb) == (len * len) * n)
            by (nonlinear_arith)
            requires
                n == va * va + vb * vb,
        ;
        assert((ax * ax) * (s * s) + (ay * ay) * (s * s) == sum * (s * s)) by (nonlinear_arith)
            requires
                sum == ax * ax + ay * ay,
        ;
        assert((len * len) * n <= sum * (s * s));
        assert((len + 1) * (len + 1) == len * len + 2 * len + 1) by (nonlinear_arith);
        assert(sum <= len * len + 2 * len);
        assert(sum * (s * s) <= (len * len + 2 * len) * (s * s)) by (nonlinear_arith)
            requires
                sum <= len * len + 2 * len,
                0 <= s * s,
        ;
        assert((len * len + 2 * len) * (s * s) == len * (len * (s * s) + 2 * (s * s)))
            by (nonlinear_arith);
        assert((len * len) * n == len * (len * n)) by (nonlinear_arith);
        assert(len * (len * n) <= len * (len * (s * s) + 2 * (s * s)));
        assert(len * n <= len * (s * s) + 2 * (s * s)) by (nonlinear_arith)
            requires
                0 < len,
                len * (len * n) <= len * (len * (s * s) + 2 * (s * s)),
        ;
        if n > s * s {
            let x = n - s * s;
            assert(x * len <= 2 * (s * s)) by (nonlinear_arith)
                requires
                    x == n - s * s,
                    len * n <= len * (s * s) + 2 * (s * s),
            ;
            assert(x * len == len * x) by (nonlinear_arith);
            vstd::arithmetic::div_mod::lemma_div_is_ordered(len * x, 2 * (s * s), len);
            vstd::arithmetic::div_mod::lemma_div_multiples_vanish(x, len);
            vstd::arithmetic::div_mod::lemma_div_is_ordered_by_denominator(
                2 * (s * s),
                1000,
                len,
            );
            assert(x <= 2 * (s * s) / 1000);
        }
        // lower bound: the squared length falls short of the true ratio
        // by less than one step per axis
        assert((ax * s) * (ax * s) < (len * (va + 1)) * (len * (va + 1))) by (nonlinear_arith)
            requires
                0 <= ax * s,
                ax * s < len * (va + 1),
        ;
        assert((ay * s) * (ay * s) < (len * (vb + 1)) * (len * (vb + 1))) by (nonlinear_arith)
            requires
                0 <= ay * s,
                ay * s < len * (vb + 1),
        ;
        assert((len * (va + 1)) * (len * (va + 1)) == (len * len) * ((va + 1) * (va + 1)))
            by (nonlinear_arith);
        assert((len * (vb + 1)) * (len * (vb + 1)) == (len * len) * ((vb + 1) * (vb + 1)))
            by (nonlinear_arith);
        let m = (va + 1) * (va + 1) + (vb + 1) * (vb + 1);
        assert((len * len) * ((va + 1) * (va + 1)) + (len * len) * ((vb + 1) * (vb + 1)) == (len
            * len) * m) by (nonlinear_arith)
            requires
                m == (va + 1) * (va + 1) + (vb + 1) * (vb + 1),
        ;
        assert(sum * (s * s) < (len * len) * m);
        assert(len * len <= sum);
        assert((len * len) * (s * s) <= sum * (s * s)) by (nonlinear_arith)
            requires
                len * len <= sum,
                0 <= s * s,
        ;
        assert(0 < len * len) by (nonlinear_arith)
            requires
                0 < len,
        ;
        assert(s * s < m) by (nonlinear_arith)
            requires
                0 < len * len,
                (len * len) * (s * s) < (len * len) * m,
        ;
        assert((va + 1) * (va + 1) == va * va + 2 * va + 1) by (nonlinear_arith);
        assert((vb + 1) * (vb + 1) == vb * vb + 2 * vb + 1) by (nonlinear_arith);
        assert(n > s * s - 2 * va - 2 * vb - 2);
        assert(n >= s * s - 4 * s - 1);
    }
}

/// The throttled approach velocity toward a target.
fn steer(pos: Vec2i, target: Vec2i, speed: i64) -> (v: Vec2i)
    requires
        vec_wf(pos),
        vec_wf(target),
        0 <= speed <= QMAX,
    ensures
        v == steer_spec(pos, target, speed),
        -speed <= v.x <= speed,
        -speed <= v.y <= speed,
{
    let d = dist_between(&pos, &target);
    proof {
        assert(0 <= speed * d) by (nonlinear_arith)
            requires
                0 <= speed,
                0 <= d,
        ;
        assert(speed * d <= 600_000_000_000_000int) by (nonlinear_arith)
            requires
                0 <= speed <= QMAX,
                0 <= d < 600_000_000,
                QMAX == 1_000_000,
        ;
    }
    let throttled = (speed * d) * GRAB_RAD / SCALE_SQ;
    proof {
        vstd::arithmetic::div_mod::lemma_div_pos_is_pos(speed * d * (GRAB_RAD as int), SCALE_SQ as int);
        assert(0 <= speed * d * (GRAB_RAD as int)) by (nonlinear_arith)
            requires
                0 <= speed * d,
                GRAB_RAD == 100,
        ;
    }
    let cs = clamp_i64(throttled, 0, speed);
    if d == 0 {
        Vec2i { x: 0, y: 0 }
    } else {
        proof {
            lemma_component_within_dist(target, pos);
            assert(dist_spec(target, pos) == dist_spec(pos, target)) by {
                assert(dist_sq(target, pos) == dist_sq(pos, target)) by (nonlinear_arith);
            }
        }
        Vec2i {
            x: scaled_ratio(target.x - pos.x, cs, d),
            y: scaled_ratio(target.y - pos.y, cs, d),
        }
    }
}

} // verus!
