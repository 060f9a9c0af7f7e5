//! Directions. An angle is counted in thousandths of a full turn, from the
//! positive x axis towards the positive y axis. Sines and arc tangents are
//! rational approximations, exact at every eighth of a turn.

use vstd::prelude::*;

use crate::gameplay::utils::{divide, quotient, saturate, saturate_i64, Vec2};

verus! {

/// Thousandths in a full turn.
pub const TURN: i32 = 1000;

/// A rational approximation of the sine over the first half turn, in
/// thousandths, for `0 <= m <= 500`: the quotient `16 u / (5 - 4 u)` with
/// `u = m (500 - m) / 500^2`, times a thousand and rounded towards zero. It
/// is the true sine at nothing, at a quarter and at half a turn, and stays
/// within three thousandths of it in between; the bound is not proved
/// here.
pub open spec fn half_wave(m: int) -> int {
    64_000 * (m * (500 - m)) / (5_000_000 - 16 * (m * (500 - m)))
}

/// The value that stands for the sine of an angle, in thousandths: no true
/// sine but the rational approximation `half_wave`, continued over the
/// whole turn by symmetry. It is exact at every quarter of a turn and stays
/// within three thousandths of the true sine, which is not proved here.
pub open spec fn sine_of(turn: int) -> int {
    let m = turn % 1000;
    if m <= 500 {
        half_wave(m)
    } else {
        -half_wave(m - 500)
    }
}

/// The value that stands for the cosine of an angle, in thousandths: the
/// approximation `sine_of` a quarter of a turn further on, with the same
/// error.
pub open spec fn cosine_of(turn: int) -> int {
    sine_of(turn + 250)
}

/// At the quarters of a turn the approximation is the true sine.
pub proof fn lemma_sine_at_quarters()
    ensures
        sine_of(0) == 0,
        sine_of(250) == 1000,
        sine_of(500) == 0,
        sine_of(750) == -1000,
        cosine_of(0) == 1000,
        cosine_of(250) == 0,
        cosine_of(500) == -1000,
        cosine_of(750) == 0,
{
    assert(half_wave(0) == 0);
    assert(half_wave(250) == 4_000_000_000int / 4_000_000);
    assert(4_000_000_000int / 4_000_000 == 1000);
    assert(half_wave(500) == 0);
}

pub proof fn lemma_half_wave_bounds(m: int)
    requires
        0 <= m <= 500,
    ensures
        0 <= half_wave(m) <= 1000,
{
    let u = m * (500 - m);
    assert(0 <= u <= 62_500) by (nonlinear_arith)
        requires
            0 <= m <= 500,
            u == m * (500 - m),
    ;
    let d = 5_000_000 - 16 * u;
    assert(0 <= 64_000 * u / d <= 1000) by (nonlinear_arith)
        requires
            0 <= u <= 62_500,
            d == 5_000_000 - 16 * u,
    ;
}

/// An angle brought into the range of one turn.
pub fn wrap_turn(turn: i64) -> (m: i64)
    requires
        i64::MIN < turn,
    ensures
        m == turn as int % 1000,
        0 <= m < 1000,
{
    if turn >= 0 {
        turn % 1000
    } else {
        let r: i64 = (-turn) % 1000;
        if r == 0 {
            0
        } else {
            1000 - r
        }
    }
}

fn half_wave_at(m: i64) -> (s: i64)
    requires
        0 <= m <= 500,
    ensures
        s == half_wave(m as int),
        0 <= s <= 1000,
{
    proof {
        lemma_half_wave_bounds(m as int);
    }
    assert(0 <= m * (500 - m) <= 62_500) by (nonlinear_arith)
        requires
            0 <= m <= 500,
    ;
    let u: i64 = m * (500 - m);
    (64_000 * u) / (5_000_000 - 16 * u)
}

/// The approximate sine of `turn`, in thousandths; see `sine_of`.
pub fn sine(turn: i32) -> (s: i32)
    ensures
        s == sine_of(turn as int),
        -1000 <= s <= 1000,
{
    let m: i64 = wrap_turn(turn as i64);
    if m <= 500 {
        half_wave_at(m) as i32
    } else {
        (-half_wave_at(m - 500)) as i32
    }
}

/// The approximate cosine of `turn`, in thousandths; see `cosine_of`.
pub fn cosine(turn: i32) -> (c: i32)
    ensures
        c == cosine_of(turn as int),
        -1000 <= c <= 1000,
{
    let m: i64 = wrap_turn(turn as i64 + 250);
    if m <= 500 {
        half_wave_at(m) as i32
    } else {
        (-half_wave_at(m - 500)) as i32
    }
}

/// The displacement of one step of length `speed` in the direction `turn`.
pub open spec fn step_of(turn: int, speed: int) -> Vec2 {
    Vec2 {
        x: saturate(quotient(cosine_of(turn) * speed, 1000)) as i32,
        y: saturate(quotient(sine_of(turn) * speed, 1000)) as i32,
    }
}

/// One step of length `speed` in the direction `turn`.
pub fn step(turn: i32, speed: i32) -> (v: Vec2)
    ensures
        v == step_of(turn as int, speed as int),
{
    let c: i64 = cosine(turn) as i64;
    let s: i64 = sine(turn) as i64;
    assert(-0x1_0000_0000_0000 <= c * (speed as i64) <= 0x1_0000_0000_0000) by (nonlinear_arith)
        requires
            -1000 <= c <= 1000,
            -0x8000_0000 <= speed as i64 <= 0x8000_0000,
    ;
    assert(-0x1_0000_0000_0000 <= s * (speed as i64) <= 0x1_0000_0000_0000) by (nonlinear_arith)
        requires
            -1000 <= s <= 1000,
            -0x8000_0000 <= speed as i64 <= 0x8000_0000,
    ;
    Vec2 {
        x: saturate_i64(divide(c * speed as i64, 1000)),
        y: saturate_i64(divide(s * speed as i64, 1000)),
    }
}

/// A rational approximation of the angle of the point `(x, y)` for
/// `0 <= y <= x` and `x > 0`, between nothing and an eighth of a turn: with
/// `t = y / x` it is `t (168.45 - 43.45 t)` thousandths of a turn, rounded
/// towards zero. It is exact for `t = 0` and `t = 1`.
pub open spec fn octant_turn(x: int, y: int) -> int {
    y * (168_450 * x - 43_450 * y) / (1000 * x * x)
}

/// The approximate angle of the point `(x, y)` of the first quadrant; see
/// `octant_turn`.
pub open spec fn quadrant_turn(x: int, y: int) -> int {
    if y <= x {
        octant_turn(x, y)
    } else {
        250 - octant_turn(y, x)
    }
}

/// The value that stands for the angle of the direction `(dx, dy)`, above
/// minus half a turn and up to half a turn: no true arc tangent but the
/// rational approximation `octant_turn`, continued over the other octants
/// by symmetry. It is exact at every eighth of a turn and was found within
/// two thousandths of a turn of the true angle elsewhere; no bound is
/// proved here. The direction without length has the angle zero.
pub open spec fn turn_of(dx: int, dy: int) -> int {
    if dx == 0 && dy == 0 {
        0
    } else if dx >= 0 && dy >= 0 {
        quadrant_turn(dx, dy)
    } else if dx < 0 && dy >= 0 {
        500 - quadrant_turn(-dx, dy)
    } else if dx < 0 && dy < 0 {
        quadrant_turn(-dx, -dy) - 500
    } else {
        -quadrant_turn(dx, -dy)
    }
}

/// On the axis and on the diagonal the approximation is the true angle:
/// nothing, and an eighth of a turn.
pub proof fn lemma_octant_ends(x: int)
    requires
        x > 0,
    ensures
        octant_turn(x, 0) == 0,
        octant_turn(x, x) == 125,
{
    let d = 1000 * x * x;
    assert(d > 0) by (nonlinear_arith)
        requires
            x > 0,
            d == 1000 * x * x,
    ;
    assert(x * (168_450 * x - 43_450 * x) == 125 * d) by (nonlinear_arith)
        requires
            d == 1000 * x * x,
    ;
    assert(0 * (168_450 * x - 43_450 * 0) == 0) by (nonlinear_arith);
    assert(0int / d == 0) by (nonlinear_arith)
        requires
            d > 0,
    ;
    assert((125 * d) / d == 125) by (nonlinear_arith)
        requires
            d > 0,
    ;
}

pub proof fn lemma_octant_bounds(x: int, y: int)
    requires
        0 <= y <= x,
        x > 0,
    ensures
        0 <= octant_turn(x, y) <= 125,
{
    let n = y * (168_450 * x - 43_450 * y);
    let d = 1000 * x * x;
    assert(n >= 0) by (nonlinear_arith)
        requires
            0 <= y <= x,
            n == y * (168_450 * x - 43_450 * y),
    ;
    assert(125 * d - n == (x - y) * (125_000 * x - 43_450 * y)) by (nonlinear_arith)
        requires
            n == y * (168_450 * x - 43_450 * y),
            d == 1000 * x * x,
    ;
    assert((x - y) * (125_000 * x - 43_450 * y) >= 0) by (nonlinear_arith)
        requires
            0 <= y <= x,
    ;
    assert(d > 0) by (nonlinear_arith)
        requires
            x > 0,
            d == 1000 * x * x,
    ;
    assert(0 <= n / d <= 125) by (nonlinear_arith)
        requires
            n >= 0,
            d > 0,
            n <= 125 * d,
    ;
}

fn octant(x: i128, y: i128) -> (t: i128)
    requires
        0 <= y <= x <= 0x1_0000_0000,
        x > 0,
    ensures
        t == octant_turn(x as int, y as int),
        0 <= t <= 125,
{
    proof {
        lemma_octant_bounds(x as int, y as int);
    }
    assert(0 <= 168_450 * x - 43_450 * y <= 168_450 * 0x1_0000_0000);
    assert(0 <= y * (168_450 * x - 43_450 * y) <= 0x1_0000_0000 * (168_450 * 0x1_0000_0000))
        by (nonlinear_arith)
        requires
            0 <= y <= 0x1_0000_0000,
            0 <= 168_450 * x - 43_450 * y <= 168_450 * 0x1_0000_0000,
    ;
    assert(0 < x * x <= 0x1_0000_0000 * 0x1_0000_0000) by (nonlinear_arith)
        requires
            0 < x <= 0x1_0000_0000,
    ;
    assert(1000 * x * x == 1000 * (x * x)) by (nonlinear_arith);
    let n: i128 = y * (168_450 * x - 43_450 * y);
    let d: i128 = 1000 * (x * x);
    n / d
}

fn quadrant(x: i128, y: i128) -> (t: i128)
    requires
        0 <= x <= 0x1_0000_0000,
        0 <= y <= 0x1_0000_0000,
        x > 0 || y > 0,
    ensures
        t == quadrant_turn(x as int, y as int),
        0 <= t <= 250,
{
    if y <= x {
        octant(x, y)
    } else {
        250 - octant(y, x)
    }
}

/// The angle under which `target` is seen from `from`.
pub fn rotation_towards(from: Vec2, target: Vec2) -> (turn: i32)
    ensures
        turn == turn_of(target.x - from.x, target.y - from.y),
        -500 <= turn <= 500,
{
    let dx: i128 = target.x as i128 - from.x as i128;
    let dy: i128 = target.y as i128 - from.y as i128;
    if dx == 0 && dy == 0 {
        0
    } else if dx >= 0 && dy >= 0 {
        quadrant(dx, dy) as i32
    } else if dx < 0 && dy >= 0 {
        (500 - quadrant(-dx, dy)) as i32
    } else if dx < 0 && dy < 0 {
        (quadrant(-dx, -dy) - 500) as i32
    } else {
        (-quadrant(dx, -dy)) as i32
    }
}

} // verus!
