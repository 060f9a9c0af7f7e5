//! The one source of chance, and the arithmetic that turns a draw into a
//! length.

use vstd::prelude::*;

verus! {

/// Number of values a draw can take.
pub const DRAW_RANGE: u64 = 0x1_0000_0000;

/// Draws a number from the thread-local generator of the `rand` crate by
/// calling `rand::random::<u32>()`. The outcome is left open: every value
/// of the type may come back, and two calls need not agree.
#[verifier::external_body]
pub(crate) fn random_u32() -> (draw: u32) {
    rand::random::<u32>()
}

/// The part of `span` that a draw selects when the draw is read as a
/// fraction of `DRAW_RANGE`: zero for the lowest draw, just below `span`
/// for the highest.
pub open spec fn scaled(span: int, draw: u32) -> int {
    span * draw / (DRAW_RANGE as int)
}

pub proof fn lemma_scaled_bounds(span: int, draw: u32)
    requires
        span >= 0,
    ensures
        0 <= scaled(span, draw) <= span,
        span > 0 ==> scaled(span, draw) < span,
{
    let d = draw as int;
    let n = DRAW_RANGE as int;
    assert(0 <= span * d) by (nonlinear_arith)
        requires
            span >= 0,
            d >= 0,
    ;
    assert(span * d <= span * n - span) by (nonlinear_arith)
        requires
            span >= 0,
            0 <= d <= n - 1,
    ;
    assert(span * n / n == span) by (nonlinear_arith)
        requires
            n > 0,
    ;
    assert(span * d / n <= span * n / n) by (nonlinear_arith)
        requires
            n > 0,
            span * d <= span * n,
    ;
    assert(span * d / n >= 0) by (nonlinear_arith)
        requires
            n > 0,
            span * d >= 0,
    ;
    if span > 0 {
        assert(span * d / n < span) by (nonlinear_arith)
            requires
                n > 0,
                span > 0,
                span * d <= span * n - span,
                span * d >= 0,
        ;
    }
}

/// Picks a length below `span` from a draw.
pub fn scale_by_draw(span: u32, draw: u32) -> (part: u32)
    ensures
        part == scaled(span as int, draw),
        part <= span,
        span > 0 ==> part < span,
{
    proof {
        lemma_scaled_bounds(span as int, draw);
    }
    assert(span as u64 * draw as u64 <= 0xffff_ffff * 0xffff_ffff) by (nonlinear_arith)
        requires
            span <= 0xffff_ffff,
            draw <= 0xffff_ffff,
    ;
    let product: u64 = span as u64 * draw as u64;
    (product / DRAW_RANGE) as u32
}

/// An offset around zero chosen by a draw: `size / 2` for the lowest draw,
/// falling to just above `-size / 2` for the highest.
pub open spec fn jitter_of(size: u32, draw: u32) -> int {
    size / 2 - scaled(size as int, draw)
}

/// Offset by which a spawned effect is moved off its anchor.
pub fn jitter(size: u32, draw: u32) -> (offset: i32)
    requires
        size <= i32::MAX,
    ensures
        offset == jitter_of(size, draw),
        -(size as int) <= offset <= size / 2,
{
    let part: u32 = scale_by_draw(size, draw);
    (size / 2) as i32 - part as i32
}

} // verus!
