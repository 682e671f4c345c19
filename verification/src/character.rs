use vstd::prelude::*;

use crate::geom::{vec_wf, Vec2i};
use crate::plants::VisualHandle;
use crate::units::{clamp_i64, clamp_spec, scale_mul, scale_mul_signed, scale_mul_signed_spec, DT_MAX, PMAX, QMAX, SCALE};

verus! {

/// Default speed for any character if a specific speed is not set.
pub const DEFAULT_CHARACTER_SPEED: i64 = 400_000;

/// Fixed-point length of each component of a unit diagonal.
pub const DIAG_UNIT: i64 = 707;

/// One input axis resolved to a sign: the two keys cancel each other.
pub open spec fn axis_dir(neg: bool, pos: bool) -> int {
    if neg && !pos {
        -1
    } else if pos && !neg {
        1
    } else {
        0
    }
}

/// The fixed-point direction vector for the pressed keys: unit length on
/// one axis, and a normalised diagonal when both axes are active, so
/// diagonal speed equals axial speed.
pub open spec fn input_dir_x(left: bool, right: bool, up: bool, down: bool) -> int {
    if axis_dir(left, right) != 0 && axis_dir(up, down) != 0 {
        axis_dir(left, right) * DIAG_UNIT
    } else {
        axis_dir(left, right) * SCALE
    }
}

pub open spec fn input_dir_y(left: bool, right: bool, up: bool, down: bool) -> int {
    if axis_dir(left, right) != 0 && axis_dir(up, down) != 0 {
        axis_dir(up, down) * DIAG_UNIT
    } else {
        axis_dir(up, down) * SCALE
    }
}

/// Where a point moving with the given input lands after `dt`: the
/// direction scaled by `speed * dt`, clamped into the coordinate range.
pub open spec fn moved_coord(from: int, dir: int, speed: int, dt: int, limit: int) -> int {
    clamp_spec(
        from + scale_mul_signed_spec(dir, speed * dt / (SCALE as int)),
        -limit,
        limit,
    )
}

/// Computes one axis of a movement step.
pub fn move_coord(from: i64, dir: i64, speed: i64, dt: i64, limit: i64) -> (r: i64)
    requires
        -PMAX <= from <= PMAX,
        -SCALE <= dir <= SCALE,
        0 <= speed <= QMAX,
        0 <= dt <= DT_MAX,
        0 < limit <= PMAX,
    ensures
        r == moved_coord(from as int, dir as int, speed as int, dt as int, limit as int),
        -limit <= r <= limit,
{
    proof {
        assert(speed * dt <= QMAX * DT_MAX) by (nonlinear_arith)
            requires
                0 <= speed <= QMAX,
                0 <= dt <= DT_MAX,
        ;
        assert(0 <= speed * dt) by (nonlinear_arith)
            requires
                0 <= speed,
                0 <= dt,
        ;
    }
    let step = scale_mul(speed, dt);
    proof {
        assert(dir * step <= SCALE * (QMAX * DT_MAX / (SCALE as int)) && -(SCALE * (QMAX * DT_MAX
            / (SCALE as int))) <= dir * step) by (nonlinear_arith)
            requires
                -SCALE <= dir <= SCALE,
                0 <= step <= QMAX * DT_MAX / (SCALE as int),
        ;
    }
    let disp = scale_mul_signed(dir, step);
    proof {
        crate::units::lemma_scale_mul_signed_bounds(dir as int, step as int, SCALE as int);
    }
    clamp_i64(from + disp, -limit, limit)
}

/// A plain moving character: a position, a speed, and its image.
pub struct Character {
    pub pos: Vec2i,
    pub speed: i64,
    pub texture: VisualHandle,
}

pub open spec fn character_wf(c: Character) -> bool {
    &&& 0 <= c.speed <= QMAX
    &&& vec_wf(c.pos)
}

/// Where a character stands after one input tick.
pub open spec fn character_step(c: Character, dt: int, left: bool, right: bool, up: bool, down: bool) -> Character {
    Character {
        pos: Vec2i {
            x: moved_coord(
                c.pos.x as int,
                input_dir_x(left, right, up, down),
                c.speed as int,
                dt,
                PMAX as int,
            ) as i64,
            y: moved_coord(
                c.pos.y as int,
                input_dir_y(left, right, up, down),
                c.speed as int,
                dt,
                PMAX as int,
            ) as i64,
        },
        ..c
    }
}

impl Character {
    pub fn new(speed: i64, texture: VisualHandle) -> (c: Character)
        requires
            0 <= speed <= QMAX,
        ensures
            c == (Character { pos: Vec2i { x: 150_000, y: 150_000 }, speed, texture }),
            character_wf(c),
    {
        Character { pos: Vec2i { x: 150_000, y: 150_000 }, speed, texture }
    }

    /// Moves by the held direction keys: `left`/`right` and `up`/`down`
    /// are the sampled key states for one tick of `dt` seconds.
    pub fn update(&mut self, dt: i64, left: bool, right: bool, up: bool, down: bool)
        requires
            character_wf(*old(self)),
            0 <= dt <= DT_MAX,
        ensures
            *final(self) == character_step(*old(self), dt as int, left, right, up, down),
            character_wf(*final(self)),
    {
        let dir_x = direction_component(left, right, up, down);
        let dir_y = direction_component(up, down, left, right);
        proof {
            assert(dir_x == input_dir_x(left, right, up, down));
            assert(dir_y == input_dir_y(left, right, up, down));
        }
        let nx = move_coord(self.pos.x, dir_x, self.speed, dt, PMAX);
        let ny = move_coord(self.pos.y, dir_y, self.speed, dt, PMAX);
        self.pos = Vec2i { x: nx, y: ny };
    }
}

/// The fixed-point direction along the `main` axis, diagonal-normalised
/// when the `other` axis is active too.
pub fn direction_component(
    main_neg: bool,
    main_pos: bool,
    other_neg: bool,
    other_pos: bool,
) -> (r: i64)
    ensures
        r == (if axis_dir(main_neg, main_pos) != 0 && axis_dir(other_neg, other_pos) != 0 {
            axis_dir(main_neg, main_pos) * DIAG_UNIT
        } else {
            axis_dir(main_neg, main_pos) * SCALE
        }),
        -SCALE <= r <= SCALE,
{
    let main: i64 = if main_neg && !main_pos {
        -1
    } else if main_pos && !main_neg {
        1
    } else {
        0
    };
    let other: i64 = if other_neg && !other_pos {
        -1
    } else if other_pos && !other_neg {
        1
    } else {
        0
    };
    if main != 0 && other != 0 {
        main * DIAG_UNIT
    } else {
        main * SCALE
    }
}

} // verus!
