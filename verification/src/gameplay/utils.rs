//! Fixed-point geometry: points, distances and the camera's visible area.

use vstd::math::abs;
use vstd::prelude::*;

verus! {

/// A point or a displacement in world space, in thousandths of a pixel.
#[derive(Clone, Copy, Debug, PartialEq, Eq, Structural)]
pub struct Vec2 {
    pub x: i32,
    pub y: i32,
}

/// `v` limited to the closed interval from `lo` to `hi`.
pub open spec fn clamp(v: int, lo: int, hi: int) -> int {
    if v < lo {
        lo
    } else if v > hi {
        hi
    } else {
        v
    }
}

/// `v` limited to what a coordinate can hold.
pub open spec fn saturate(v: int) -> int {
    clamp(v, i32::MIN as int, i32::MAX as int)
}

/// Narrows a wide intermediate result to a coordinate, stopping at the ends
/// of the coordinate range.
pub fn saturate_i64(v: i64) -> (r: i32)
    ensures
        r == saturate(v as int),
{
    if v < i32::MIN as i64 {
        i32::MIN
    } else if v > i32::MAX as i64 {
        i32::MAX
    } else {
        v as i32
    }
}

impl Vec2 {
    pub fn new(x: i32, y: i32) -> (v: Vec2)
        ensures
            v == (Vec2 { x, y }),
    {
        Vec2 { x, y }
    }

    pub fn zero() -> (v: Vec2)
        ensures
            v == (Vec2 { x: 0, y: 0 }),
    {
        Vec2 { x: 0, y: 0 }
    }

    /// The point moved by `dx` and `dy`, each axis stopping at the end of
    /// the coordinate range.
    pub open spec fn moved(self, dx: int, dy: int) -> Vec2 {
        Vec2 { x: saturate(self.x + dx) as i32, y: saturate(self.y + dy) as i32 }
    }

    pub fn translate(self, dx: i32, dy: i32) -> (v: Vec2)
        ensures
            v == self.moved(dx as int, dy as int),
    {
        Vec2 {
            x: saturate_i64(self.x as i64 + dx as i64),
            y: saturate_i64(self.y as i64 + dy as i64),
        }
    }

    pub fn plus(self, other: Vec2) -> (v: Vec2)
        ensures
            v == self.moved(other.x as int, other.y as int),
    {
        self.translate(other.x, other.y)
    }

    /// The point that lies `factor` thousandths of the way from here to
    /// `to`; a factor above a thousand counts as a thousand.
    pub open spec fn blended(self, to: Vec2, factor: u32) -> Vec2 {
        let f = if factor > 1000 {
            1000
        } else {
            factor as int
        };
        Vec2 {
            x: saturate(self.x + quotient((to.x - self.x) * f, 1000)) as i32,
            y: saturate(self.y + quotient((to.y - self.y) * f, 1000)) as i32,
        }
    }

    /// Linear interpolation between two points.
    pub fn lerp(self, to: Vec2, factor: u32) -> (v: Vec2)
        ensures
            v == self.blended(to, factor),
    {
        let f: i64 = if factor > 1000 {
            1000
        } else {
            factor as i64
        };
        let dx: i64 = to.x as i64 - self.x as i64;
        let dy: i64 = to.y as i64 - self.y as i64;
        assert(-0x1_0000_0000 * 1000 <= dx * f <= 0x1_0000_0000 * 1000) by (nonlinear_arith)
            requires
                -0x1_0000_0000 <= dx <= 0x1_0000_0000,
                0 <= f <= 1000,
        ;
        assert(-0x1_0000_0000 * 1000 <= dy * f <= 0x1_0000_0000 * 1000) by (nonlinear_arith)
            requires
                -0x1_0000_0000 <= dy <= 0x1_0000_0000,
                0 <= f <= 1000,
        ;
        Vec2 {
            x: saturate_i64(self.x as i64 + divide(dx * f, 1000)),
            y: saturate_i64(self.y as i64 + divide(dy * f, 1000)),
        }
    }
}

/// Where a point ends up that is pulled towards each of `targets` in turn,
/// each time by `factor` thousandths of the way.
pub open spec fn pulled(position: Vec2, targets: Seq<Vec2>, factor: u32) -> Vec2
    decreases targets.len(),
{
    if targets.len() == 0 {
        position
    } else {
        pulled(position, targets.drop_last(), factor).blended(targets.last(), factor)
    }
}

/// Pulls a point towards each of `targets` in turn.
pub fn pull(position: Vec2, targets: &Vec<Vec2>, factor: u32) -> (v: Vec2)
    ensures
        v == pulled(position, targets@, factor),
{
    let mut actual = position;
    let mut i: usize = 0;
    while i < targets.len()
        invariant
            i <= targets.len(),
            actual == pulled(position, targets@.subrange(0, i as int), factor),
        decreases targets.len() - i,
    {
        assert(targets@.subrange(0, i + 1).drop_last() == targets@.subrange(0, i as int));
        actual = actual.lerp(targets[i], factor);
        i += 1;
    }
    assert(targets@.subrange(0, i as int) == targets@);
    actual
}

/// `a / b` rounded towards zero.
pub open spec fn quotient(a: int, b: int) -> int
    recommends
        b > 0,
{
    if a >= 0 {
        a / b
    } else {
        -((-a) / b)
    }
}

/// Division that rounds towards zero, whatever the sign of `a`.
pub fn divide(a: i64, b: i64) -> (q: i64)
    requires
        b > 0,
        a > i64::MIN,
    ensures
        q == quotient(a as int, b as int),
        -abs(a as int) <= q <= abs(a as int),
{
    if a >= 0 {
        a / b
    } else {
        let n: i64 = -a;
        let q: i64 = n / b;
        -q
    }
}

/// Square of the distance between two points.
pub open spec fn dist_sq(x1: int, y1: int, x2: int, y2: int) -> int {
    (x2 - x1) * (x2 - x1) + (y2 - y1) * (y2 - y1)
}

proof fn lemma_square_bounds(d: int)
    ensures
        d * d >= 0,
        d * d >= d,
        d * d >= -d,
{
    assert(d * d >= 0 && d * d >= d && d * d >= -d) by (nonlinear_arith);
}

/// The squared distance between `(x1, y1)` and `(x2, y2)`, or `i128::MAX`
/// where the true value is too large for the result type.
pub fn distance_sqr(x1: i128, y1: i128, x2: i128, y2: i128) -> (d: i128)
    ensures
        d == if dist_sq(x1 as int, y1 as int, x2 as int, y2 as int) <= i128::MAX {
            dist_sq(x1 as int, y1 as int, x2 as int, y2 as int)
        } else {
            i128::MAX as int
        },
{
    proof {
        lemma_square_bounds(x2 - x1);
        lemma_square_bounds(y2 - y1);
    }
    let dx = match x2.checked_sub(x1) {
        Some(v) => v,
        None => { return i128::MAX; },
    };
    let dy = match y2.checked_sub(y1) {
        Some(v) => v,
        None => { return i128::MAX; },
    };
    let xx = match dx.checked_mul(dx) {
        Some(v) => v,
        None => { return i128::MAX; },
    };
    let yy = match dy.checked_mul(dy) {
        Some(v) => v,
        None => { return i128::MAX; },
    };
    match xx.checked_add(yy) {
        Some(v) => v,
        None => i128::MAX,
    }
}

/// Squared distance between two points of the world. Always exact.
pub fn distance_sqr_between(a: Vec2, b: Vec2) -> (d: i128)
    ensures
        d == dist_sq(a.x as int, a.y as int, b.x as int, b.y as int),
        0 <= d <= 0x2_0000_0000_0000_0000,
{
    let dx: i128 = b.x as i128 - a.x as i128;
    let dy: i128 = b.y as i128 - a.y as i128;
    assert(dx * dx <= 0x1_0000_0000_0000_0000 && dx * dx >= 0) by (nonlinear_arith)
        requires
            -0x1_0000_0000 <= dx <= 0x1_0000_0000,
    ;
    assert(dy * dy <= 0x1_0000_0000_0000_0000 && dy * dy >= 0) by (nonlinear_arith)
        requires
            -0x1_0000_0000 <= dy <= 0x1_0000_0000,
    ;
    dx * dx + dy * dy
}

/// Whether two circles touch or overlap: the distance between the centres
/// is at most the sum of the radii. The boundary counts as touching.
pub open spec fn circles_touch(a: Vec2, ra: u32, b: Vec2, rb: u32) -> bool {
    dist_sq(a.x as int, a.y as int, b.x as int, b.y as int) <= (ra + rb) * (ra + rb)
}

/// The boundary is inclusive: two circles whose centres are exactly as far
/// apart as the sum of their radii touch, and so do circles that are
/// closer; circles that are further apart do not.
pub proof fn lemma_boundary_counts(a: Vec2, ra: u32, b: Vec2, rb: u32, distance: int)
    requires
        distance >= 0,
        dist_sq(a.x as int, a.y as int, b.x as int, b.y as int) == distance * distance,
    ensures
        distance == ra + rb ==> circles_touch(a, ra, b, rb),
        distance <= ra + rb ==> circles_touch(a, ra, b, rb),
        distance > ra + rb ==> !circles_touch(a, ra, b, rb),
{
    let sum = ra + rb;
    if distance <= sum {
        assert(distance * distance <= sum * sum) by (nonlinear_arith)
            requires
                0 <= distance <= sum,
        ;
    } else {
        assert(distance * distance > sum * sum) by (nonlinear_arith)
            requires
                0 <= sum < distance,
        ;
    }
}

/// Tests two circles for contact without taking a square root.
pub fn circles_overlap(a: Vec2, ra: u32, b: Vec2, rb: u32) -> (hit: bool)
    ensures
        hit == circles_touch(a, ra, b, rb),
{
    let total: i128 = ra as i128 + rb as i128;
    assert(total * total <= 0x4_0000_0000_0000_0000 && total * total >= 0) by (nonlinear_arith)
        requires
            0 <= total <= 0x2_0000_0000,
    ;
    distance_sqr_between(a, b) <= total * total
}

/// Whether a circle of the given radius around `position` reaches into the
/// rectangle that the camera at `camera` shows.
pub open spec fn inside_camera_area(camera: Vec2, position: Vec2, radius: u32) -> bool {
    &&& camera.x - crate::SCREEN_WIDTH / 2 - radius <= position.x
    &&& position.x <= camera.x + crate::SCREEN_WIDTH / 2 + radius
    &&& camera.y - crate::SCREEN_HEIGHT / 2 - radius <= position.y
    &&& position.y <= camera.y + crate::SCREEN_HEIGHT / 2 + radius
}

pub fn is_inside_camera_area(camera: Vec2, position: Vec2, radius: u32) -> (inside: bool)
    ensures
        inside == inside_camera_area(camera, position, radius),
{
    let half_w: i64 = (crate::SCREEN_WIDTH / 2) as i64;
    let half_h: i64 = (crate::SCREEN_HEIGHT / 2) as i64;
    let r: i64 = radius as i64;
    let left: i64 = camera.x as i64 - half_w - r;
    let right: i64 = camera.x as i64 + half_w + r;
    if position.x as i64 >= left && position.x as i64 <= right {
        let up: i64 = camera.y as i64 - half_h - r;
        let down: i64 = camera.y as i64 + half_h + r;
        if position.y as i64 >= up && position.y as i64 <= down {
            return true;
        }
    }
    false
}

/// Margin by which the player may leave the screen sideways.
pub const SIDE_MARGIN: i32 = 8_000;

/// `position` pulled back into the area the camera shows, widened sideways
/// by `SIDE_MARGIN`.
pub open spec fn clamped_inside_camera_area(camera: Vec2, position: Vec2) -> Vec2 {
    Vec2 {
        x: saturate(
            clamp(
                position.x as int,
                camera.x - crate::SCREEN_WIDTH / 2 - SIDE_MARGIN,
                camera.x + crate::SCREEN_WIDTH / 2 + SIDE_MARGIN,
            ),
        ) as i32,
        y: saturate(
            clamp(
                position.y as int,
                camera.y - crate::SCREEN_HEIGHT / 2,
                camera.y + crate::SCREEN_HEIGHT / 2,
            ),
        ) as i32,
    }
}

fn clamp_i64(v: i64, lo: i64, hi: i64) -> (r: i64)
    ensures
        r == clamp(v as int, lo as int, hi as int),
{
    if v < lo {
        lo
    } else if v > hi {
        hi
    } else {
        v
    }
}

pub fn clamp_position_inside_camera_area(camera: Vec2, position: &mut Vec2)
    ensures
        *final(position) == clamped_inside_camera_area(camera, *old(position)),
{
    let half_w: i64 = (crate::SCREEN_WIDTH / 2) as i64;
    let half_h: i64 = (crate::SCREEN_HEIGHT / 2) as i64;
    let left: i64 = camera.x as i64 - half_w - SIDE_MARGIN as i64;
    let right: i64 = camera.x as i64 + half_w + SIDE_MARGIN as i64;
    let up: i64 = camera.y as i64 - half_h;
    let down: i64 = camera.y as i64 + half_h;
    position.x = saturate_i64(clamp_i64(position.x as i64, left, right));
    position.y = saturate_i64(clamp_i64(position.y as i64, up, down));
}

/// The point of the visible area that two draws select from the rectangle
/// that starts `left` and `top` thousandths of the screen from the top left
/// corner and is `width` and `height` thousandths of the screen wide and
/// high. A point outside the visible area is pulled back to its edge.
pub open spec fn position_inside_camera_area_of(
    camera: Vec2,
    left: u32,
    top: u32,
    width: u32,
    height: u32,
    draw_x: u32,
    draw_y: u32,
) -> Vec2 {
    let w = if width > crate::SCREEN_WIDTH {
        crate::SCREEN_WIDTH as int
    } else {
        width as int
    };
    let h = if height > crate::SCREEN_HEIGHT {
        crate::SCREEN_HEIGHT as int
    } else {
        height as int
    };
    let x = camera.x - crate::SCREEN_WIDTH / 2 + left * crate::SCREEN_WIDTH / 1000
        + crate::gameplay::random::scaled(crate::SCREEN_WIDTH * w / 1000, draw_x);
    let y = camera.y - crate::SCREEN_HEIGHT / 2 + top * crate::SCREEN_HEIGHT / 1000
        + crate::gameplay::random::scaled(crate::SCREEN_HEIGHT * h / 1000, draw_y);
    Vec2 {
        x: saturate(
            clamp(x, camera.x - crate::SCREEN_WIDTH / 2, camera.x + crate::SCREEN_WIDTH / 2),
        ) as i32,
        y: saturate(
            clamp(y, camera.y - crate::SCREEN_HEIGHT / 2, camera.y + crate::SCREEN_HEIGHT / 2),
        ) as i32,
    }
}

/// The point of the visible area that two draws select; see
/// `position_inside_camera_area_of`.
pub fn position_inside_camera_area(
    camera: Vec2,
    left: u32,
    top: u32,
    width: u32,
    height: u32,
    draw_x: u32,
    draw_y: u32,
) -> (position: Vec2)
    ensures
        position == position_inside_camera_area_of(camera, left, top, width, height, draw_x, draw_y),
{
    let w: u64 = if width > crate::SCREEN_WIDTH as u32 {
        crate::SCREEN_WIDTH as u64
    } else {
        width as u64
    };
    let h: u64 = if height > crate::SCREEN_HEIGHT as u32 {
        crate::SCREEN_HEIGHT as u64
    } else {
        height as u64
    };
    let half_w: i64 = (crate::SCREEN_WIDTH / 2) as i64;
    let half_h: i64 = (crate::SCREEN_HEIGHT / 2) as i64;
    let span_x: u32 = (crate::SCREEN_WIDTH as u64 * w / 1000) as u32;
    let span_y: u32 = (crate::SCREEN_HEIGHT as u64 * h / 1000) as u32;
    let value_x: i64 = crate::gameplay::random::scale_by_draw(span_x, draw_x) as i64;
    let value_y: i64 = crate::gameplay::random::scale_by_draw(span_y, draw_y) as i64;
    let x: i64 = camera.x as i64 - half_w + (left as u64 * crate::SCREEN_WIDTH as u64 / 1000) as i64
        + value_x;
    let y: i64 = camera.y as i64 - half_h + (top as u64 * crate::SCREEN_HEIGHT as u64 / 1000) as i64
        + value_y;
    Vec2 {
        x: saturate_i64(clamp_i64(x, camera.x as i64 - half_w, camera.x as i64 + half_w)),
        y: saturate_i64(clamp_i64(y, camera.y as i64 - half_h, camera.y as i64 + half_h)),
    }
}

/// Whether `position` is a point that `random_position_inside_camera_area`
/// can give for these arguments.
pub open spec fn is_some_position_inside_camera_area(
    position: Vec2,
    camera: Vec2,
    left: u32,
    top: u32,
    width: u32,
    height: u32,
) -> bool {
    exists|draw_x: u32, draw_y: u32|
        position == #[trigger] position_inside_camera_area_of(
            camera,
            left,
            top,
            width,
            height,
            draw_x,
            draw_y,
        )
}

/// A point of the visible area chosen by chance; see
/// `position_inside_camera_area_of`.
pub fn random_position_inside_camera_area(
    camera: Vec2,
    left: u32,
    top: u32,
    width: u32,
    height: u32,
) -> (position: Vec2)
    ensures
        is_some_position_inside_camera_area(position, camera, left, top, width, height),
{
    let draw_x = crate::gameplay::random::random_u32();
    let draw_y = crate::gameplay::random::random_u32();
    position_inside_camera_area(camera, left, top, width, height, draw_x, draw_y)
}

/// World position of a point given relative to the camera.
pub fn convert_screen_position_to_world_position(camera: Vec2, screen_position: Vec2) -> (world: Vec2)
    ensures
        world == screen_position.moved(camera.x as int, camera.y as int),
{
    screen_position.plus(camera)
}

/// The value that lies `v` thousandths of the way from `a` to `b`; a `v`
/// below nothing counts as nothing, one above a thousand as a thousand.
pub open spec fn lerp_of(a: i32, b: i32, v: i32) -> int {
    let f = clamp(v as int, 0, 1000);
    quotient(a * (1000 - f) + b * f, 1000)
}

/// Linear interpolation between two values.
pub fn lerp(a: i32, b: i32, v: i32) -> (r: i32)
    ensures
        r == lerp_of(a, b, v),
{
    let f: i64 = clamp_i64(v as i64, 0, 1000);
    assert(-0x8000_0000 * 1000 <= (a as i64) * (1000 - f) + (b as i64) * f <= 0x8000_0000 * 1000)
        by (nonlinear_arith)
        requires
            -0x8000_0000 <= (a as i64) < 0x8000_0000,
            -0x8000_0000 <= (b as i64) < 0x8000_0000,
            0 <= f <= 1000,
    ;
    assert(-0x8000_0000 * 1000 <= (a as i64) * (1000 - f) <= 0x8000_0000 * 1000) by (nonlinear_arith)
        requires
            -0x8000_0000 <= (a as i64) < 0x8000_0000,
            0 <= f <= 1000,
    ;
    assert(-0x8000_0000 * 1000 <= (b as i64) * f <= 0x8000_0000 * 1000) by (nonlinear_arith)
        requires
            -0x8000_0000 <= (b as i64) < 0x8000_0000,
            0 <= f <= 1000,
    ;
    let total: i64 = (a as i64) * (1000 - f) + (b as i64) * f;
    let q: i64 = divide(total, 1000);
    assert(-0x8000_0000 <= q < 0x8000_0000) by {
        lemma_lerp_between(a as int, b as int, f as int);
    }
    q as i32
}

/// An interpolated value lies between the two values.
proof fn lemma_lerp_between(a: int, b: int, f: int)
    requires
        0 <= f <= 1000,
    ensures
        a <= b ==> a <= quotient(a * (1000 - f) + b * f, 1000) <= b,
        b <= a ==> b <= quotient(a * (1000 - f) + b * f, 1000) <= a,
{
    let t = a * (1000 - f) + b * f;
    if a <= b {
        assert(a * 1000 <= t <= b * 1000) by (nonlinear_arith)
            requires
                a <= b,
                0 <= f <= 1000,
                t == a * (1000 - f) + b * f,
        ;
    }
    if b <= a {
        assert(b * 1000 <= t <= a * 1000) by (nonlinear_arith)
            requires
                b <= a,
                0 <= f <= 1000,
                t == a * (1000 - f) + b * f,
        ;
    }
    if a <= b {
        lemma_quotient_between(t, a, b);
    }
    if b <= a {
        lemma_quotient_between(t, b, a);
    }
}

/// Rounding a value towards zero keeps it between the whole numbers that
/// bound it.
proof fn lemma_quotient_between(t: int, lo: int, hi: int)
    requires
        lo * 1000 <= t <= hi * 1000,
    ensures
        lo <= quotient(t, 1000) <= hi,
{
    if t >= 0 {
        assert(lo <= t / 1000 <= hi) by (nonlinear_arith)
            requires
                lo * 1000 <= t <= hi * 1000,
                t >= 0,
        ;
    } else {
        assert(lo <= -((-t) / 1000) <= hi) by (nonlinear_arith)
            requires
                lo * 1000 <= t <= hi * 1000,
                t < 0,
        ;
    }
}

/// An angle without its whole turns; it keeps its sign.
pub open spec fn turn_part(angle: i32) -> int {
    if angle >= 0 {
        angle as int % 1000
    } else {
        -((-angle) % 1000)
    }
}

fn part_of_turn(angle: i64) -> (part: i64)
    requires
        -0x1_0000_0000 <= angle <= 0x1_0000_0000,
    ensures
        part == if angle >= 0 {
            angle as int % 1000
        } else {
            -((-angle) % 1000)
        },
        -1000 < part < 1000,
{
    if angle >= 0 {
        angle % 1000
    } else {
        -((-angle) % 1000)
    }
}

/// The angle that lies `t` thousandths of the way from `angle_1` to
/// `angle_2` along the shorter arc, without its whole turns.
pub open spec fn angle_lerp_of(angle_1: i32, angle_2: i32, t: i32) -> int {
    let a = turn_part(angle_1);
    let b = turn_part(angle_2);
    let apart = if a - b >= 0 {
        a - b
    } else {
        b - a
    };
    let from = if apart > 500 && a <= b {
        a + 1000
    } else {
        a
    };
    let to = if apart > 500 && a > b {
        b + 1000
    } else {
        b
    };
    let f = clamp(t as int, 0, 1000);
    let between = quotient(from * (1000 - f) + to * f, 1000);
    if between >= 0 {
        between % 1000
    } else {
        -((-between) % 1000)
    }
}

/// Interpolation between two angles along the shorter arc.
pub fn angle_lerp(angle_1: i32, angle_2: i32, t: i32) -> (r: i32)
    ensures
        r == angle_lerp_of(angle_1, angle_2, t),
{
    let a: i64 = part_of_turn(angle_1 as i64);
    let b: i64 = part_of_turn(angle_2 as i64);
    let apart: i64 = if a - b >= 0 {
        a - b
    } else {
        b - a
    };
    let from: i64 = if apart > 500 && a <= b {
        a + 1000
    } else {
        a
    };
    let to: i64 = if apart > 500 && a > b {
        b + 1000
    } else {
        b
    };
    let f: i64 = clamp_i64(t as i64, 0, 1000);
    assert(-2_000_000 <= from * (1000 - f) <= 2_000_000) by (nonlinear_arith)
        requires
            -1000 <= from <= 2000,
            0 <= f <= 1000,
    ;
    assert(-2_000_000 <= to * f <= 2_000_000) by (nonlinear_arith)
        requires
            -1000 <= to <= 2000,
            0 <= f <= 1000,
    ;
    let between: i64 = divide(from * (1000 - f) + to * f, 1000);
    part_of_turn(between) as i32
}

} // verus!
