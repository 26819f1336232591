//! The movement step: held keys give a direction vector, opposing keys
//! cancel, diagonals are normalized to unit length (in fixed point), the
//! entity is displaced by `speed * dt` along that vector, and the result
//! is clamped to the surface.

use vstd::prelude::*;
use crate::entity::Entity;
use crate::entity::MAX_DIM;
use crate::entity::MAX_SPEED;
use crate::entity::dims_wf;
use crate::input::InputState;

verus! {

/// Fixed-point scale of the direction vector: a component of a unit
/// vector along an axis is `NORM_ONE`.
pub const NORM_ONE: i64 = 1000;

/// `NORM_ONE / sqrt(2)`, rounded: the component magnitude of a unit
/// diagonal vector.
pub const NORM_DIAG: i64 = 707;

/// Milliseconds per second: elapsed time arrives in milliseconds, speed
/// is in sub-units per second.
pub const MS_PER_S: i64 = 1000;

/// Displacements are capped here before clamping; the cap is twice
/// `MAX_DIM`, so a capped overshoot still lands outside every surface
/// and the clamp hides the cap (see `lemma_cap_invisible_under_clamp`).
pub const DISP_CAP: i64 = 2_000_000_000;

/// Horizontal key contribution: right pushes +1, left pushes -1, both
/// held cancel to 0.
pub open spec fn dir_x_sign(s: InputState) -> int {
    (if s.right { 1int } else { 0int }) - (if s.left { 1int } else { 0int })
}

/// Vertical key contribution: down pushes +1 (the y axis grows downward),
/// up pushes -1, both held cancel to 0.
pub open spec fn dir_y_sign(s: InputState) -> int {
    (if s.down { 1int } else { 0int }) - (if s.up { 1int } else { 0int })
}

/// Both axes are active: the raw vector is diagonal and must be scaled
/// down to unit length.
pub open spec fn moving_diagonal(s: InputState) -> bool {
    dir_x_sign(s) != 0 && dir_y_sign(s) != 0
}

/// Magnitude of each active component of the normalized vector.
pub open spec fn norm_mag(s: InputState) -> int {
    if moving_diagonal(s) {
        NORM_DIAG as int
    } else {
        NORM_ONE as int
    }
}

/// Horizontal component of the normalized direction vector, scaled by
/// `NORM_ONE`.
pub open spec fn norm_vec_x(s: InputState) -> int {
    if dir_x_sign(s) > 0 {
        norm_mag(s)
    } else if dir_x_sign(s) < 0 {
        -norm_mag(s)
    } else {
        0
    }
}

/// Vertical component of the normalized direction vector, scaled by
/// `NORM_ONE`.
pub open spec fn norm_vec_y(s: InputState) -> int {
    if dir_y_sign(s) > 0 {
        norm_mag(s)
    } else if dir_y_sign(s) < 0 {
        -norm_mag(s)
    } else {
        0
    }
}

/// Displacement along one axis, in sub-units: the scaled vector component
/// `v` times `speed` (sub-units per second) times `dt_ms` milliseconds,
/// divided back by the vector scale and by milliseconds per second.
/// Division rounds toward zero (all factors of the magnitude are
/// nonnegative; the sign is applied outside the division).
pub open spec fn axis_move(v: int, speed: int, dt_ms: int) -> int {
    if v >= 0 {
        v * speed * dt_ms / (NORM_ONE * MS_PER_S)
    } else {
        -((-v) * speed * dt_ms / (NORM_ONE * MS_PER_S))
    }
}

/// `v` clamped into `[lo, hi]`.
pub open spec fn clamp(v: int, lo: int, hi: int) -> int {
    if v < lo {
        lo
    } else if v > hi {
        hi
    } else {
        v
    }
}

/// The x coordinate after one movement step on a surface of width `w`.
pub open spec fn new_x(s: InputState, e: Entity, dt_ms: int, w: int) -> int {
    clamp(e.x + axis_move(norm_vec_x(s), e.speed as int, dt_ms), e.size / 2, w - e.size / 2)
}

/// The y coordinate after one movement step on a surface of height `h`.
pub open spec fn new_y(s: InputState, e: Entity, dt_ms: int, h: int) -> int {
    clamp(e.y + axis_move(norm_vec_y(s), e.speed as int, dt_ms), e.size / 2, h - e.size / 2)
}

/// The normalized direction vector for the held keys, scaled by
/// `NORM_ONE`: opposing keys cancel, a diagonal is scaled to unit length.
pub fn direction_vector(s: &InputState) -> (v: (i64, i64))
    ensures
        v.0 == norm_vec_x(*s),
        v.1 == norm_vec_y(*s),
{
    let sx: i64 = (if s.right { 1i64 } else { 0i64 }) - (if s.left { 1i64 } else { 0i64 });
    let sy: i64 = (if s.down { 1i64 } else { 0i64 }) - (if s.up { 1i64 } else { 0i64 });
    let mag: i64 = if sx != 0 && sy != 0 {
        NORM_DIAG
    } else {
        NORM_ONE
    };
    let vx: i64 = if sx > 0 {
        mag
    } else if sx < 0 {
        -mag
    } else {
        0
    };
    let vy: i64 = if sy > 0 {
        mag
    } else if sy < 0 {
        -mag
    } else {
        0
    };
    (vx, vy)
}

/// Square of an integer.
pub open spec fn sq(v: int) -> int {
    v * v
}

/// Law: the movement vector is never partial. Its squared magnitude is
/// either exactly zero (no keys, or only cancelling keys) or within
/// rounding of the unit length `NORM_ONE`: `NORM_ONE * NORM_ONE` for an
/// axis move and `2 * NORM_DIAG * NORM_DIAG = 999698` for a diagonal.
pub proof fn lemma_direction_unit_or_zero(s: InputState)
    ensures
        (norm_vec_x(s) == 0 && norm_vec_y(s) == 0) <==> (dir_x_sign(s) == 0 && dir_y_sign(s)
            == 0),
        (dir_x_sign(s) == 0 && dir_y_sign(s) == 0) ==> sq(norm_vec_x(s)) + sq(norm_vec_y(s))
            == 0,
        (dir_x_sign(s) != 0 || dir_y_sign(s) != 0) ==> 999698 <= sq(norm_vec_x(s)) + sq(
            norm_vec_y(s),
        ) <= 1000000,
{
    assert(sq(0) == 0) by (nonlinear_arith);
    assert(sq(707) == 499849 && sq(-707) == 499849) by (nonlinear_arith);
    assert(sq(1000) == 1000000 && sq(-1000) == 1000000) by (nonlinear_arith);
}

/// Plain facts about `axis_move`: a zero vector component moves nothing,
/// a negated component moves the exact opposite way, and a nonnegative
/// component with nonnegative speed and time never moves backward.
proof fn lemma_axis_move_cases(mag: int, speed: int, dt_ms: int)
    requires
        mag >= 0,
        speed >= 0,
        dt_ms >= 0,
    ensures
        axis_move(0, speed, dt_ms) == 0,
        axis_move(-mag, speed, dt_ms) == -axis_move(mag, speed, dt_ms),
        axis_move(mag, speed, dt_ms) >= 0,
{
    assert(0 * speed * dt_ms == 0) by (nonlinear_arith);
    assert(mag * speed * dt_ms >= 0) by (nonlinear_arith)
        requires
            mag >= 0,
            speed >= 0,
            dt_ms >= 0,
    ;
    assert(-(-mag) == mag);
}

/// Displacement magnitude along one active axis, capped at `DISP_CAP`:
/// `clamp(mag * speed * dt_ms / (NORM_ONE * MS_PER_S), 0, DISP_CAP)`.
fn capped_disp(mag: i64, speed: i64, dt_ms: u64) -> (d: i64)
    requires
        0 <= mag <= NORM_ONE,
        0 <= speed <= MAX_SPEED,
    ensures
        d == clamp(axis_move(mag as int, speed as int, dt_ms as int), 0, DISP_CAP as int),
        0 <= d <= DISP_CAP,
{
    proof {
        assert(0 <= (mag as int) * (speed as int) <= 1000 * 1000000000) by (nonlinear_arith)
            requires
                0 <= mag <= 1000,
                0 <= speed <= 1000000000,
        ;
    }
    let a: u128 = (mag as u128) * (speed as u128);
    proof {
        assert(0 <= (a as int) * (dt_ms as int) <= 1000000000000 * 0xffff_ffff_ffff_ffff) by (
        nonlinear_arith)
            requires
                0 <= a <= 1000000000000,
                0 <= dt_ms <= 0xffff_ffff_ffff_ffff,
        ;
    }
    let num: u128 = a * (dt_ms as u128);
    let raw: u128 = num / 1_000_000u128;
    proof {
        lemma_axis_move_cases(mag as int, speed as int, dt_ms as int);
    }
    if raw > (DISP_CAP as u128) {
        DISP_CAP
    } else {
        raw as i64
    }
}

/// Capping a nonnegative displacement at `DISP_CAP` does not change the
/// clamped result: a capped displacement still carries the position past
/// either clamp bound whenever the uncapped one would.
proof fn lemma_cap_invisible_under_clamp(x: int, d: int, lo: int, hi: int)
    requires
        0 <= d,
        -MAX_DIM <= x <= MAX_DIM,
        0 <= lo <= hi,
        hi <= MAX_DIM,
    ensures
        clamp(x + clamp(d, 0, DISP_CAP as int), lo, hi) == clamp(x + d, lo, hi),
        clamp(x - clamp(d, 0, DISP_CAP as int), lo, hi) == clamp(x - d, lo, hi),
{
}

/// One movement step: displace the entity along the normalized direction
/// vector by `speed * dt` and clamp the result onto the surface. The
/// returned position always satisfies the boundary invariant, whatever
/// the starting position and however large `dt_ms` is.
pub fn update_step(s: &InputState, e: &Entity, dt_ms: u64, w: i64, h: i64) -> (r: Entity)
    requires
        dims_wf(w as int, h as int),
        e.params_wf(w as int, h as int),
        -MAX_DIM <= e.x <= MAX_DIM,
        -MAX_DIM <= e.y <= MAX_DIM,
    ensures
        r.x == new_x(*s, *e, dt_ms as int, w as int),
        r.y == new_y(*s, *e, dt_ms as int, h as int),
        r.size == e.size,
        r.speed == e.speed,
        r.in_bounds(w as int, h as int),
{
    let sx: i64 = (if s.right { 1i64 } else { 0i64 }) - (if s.left { 1i64 } else { 0i64 });
    let sy: i64 = (if s.down { 1i64 } else { 0i64 }) - (if s.up { 1i64 } else { 0i64 });
    let mag: i64 = if sx != 0 && sy != 0 {
        NORM_DIAG
    } else {
        NORM_ONE
    };
    let d: i64 = capped_disp(mag, e.speed, dt_ms);
    let mx: i64 = if sx > 0 {
        d
    } else if sx < 0 {
        -d
    } else {
        0
    };
    let my: i64 = if sy > 0 {
        d
    } else if sy < 0 {
        -d
    } else {
        0
    };
    let half: i64 = e.size / 2;
    let x1: i64 = clamp_i64(e.x + mx, half, w - half);
    let y1: i64 = clamp_i64(e.y + my, half, h - half);
    proof {
        let am = axis_move(mag as int, e.speed as int, dt_ms as int);
        lemma_axis_move_cases(mag as int, e.speed as int, dt_ms as int);
        lemma_cap_invisible_under_clamp(e.x as int, am, e.size / 2, w - e.size / 2);
        lemma_cap_invisible_under_clamp(e.y as int, am, e.size / 2, h - e.size / 2);
    }
    Entity { x: x1, y: y1, size: e.size, speed: e.speed }
}

/// `v` clamped into `[lo, hi]`.
pub fn clamp_i64(v: i64, lo: i64, hi: i64) -> (r: i64)
    requires
        lo <= hi,
    ensures
        r == clamp(v as int, lo as int, hi as int),
{
    if v < lo {
        lo
    } else if v > hi {
        hi
    } else {
        v
    }
}

/// Law: with no elapsed time the movement step leaves a well-formed
/// entity's position exactly where it was.
pub proof fn lemma_zero_dt_is_still(s: InputState, e: Entity, w: int, h: int)
    requires
        e.wf(w, h),
    ensures
        new_x(s, e, 0, w) == e.x,
        new_y(s, e, 0, h) == e.y,
{
    assert(norm_vec_x(s) >= 0 ==> norm_vec_x(s) * (e.speed as int) * 0 == 0) by (nonlinear_arith);
    assert(norm_vec_x(s) < 0 ==> (-norm_vec_x(s)) * (e.speed as int) * 0 == 0) by (
    nonlinear_arith);
    assert(norm_vec_y(s) >= 0 ==> norm_vec_y(s) * (e.speed as int) * 0 == 0) by (nonlinear_arith);
    assert(norm_vec_y(s) < 0 ==> (-norm_vec_y(s)) * (e.speed as int) * 0 == 0) by (
    nonlinear_arith);
}

} // verus!
