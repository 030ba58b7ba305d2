//! Random rectangles: the rectangle and color made from random draws, and
//! the functions that make the draws.
use vstd::prelude::*;
use crate::arith::{abs, trunc_rem, rem_i32};
use crate::geom::Rect;
use crate::words::{rgb, color_value};

verus! {

/// `rand::random::<i32>()`: a number drawn from the thread's generator,
/// any `i32`. Nothing is promised of which one.
#[verifier::external_body]
fn random_i32() -> (r: i32) {
    rand::random::<i32>()
}

/// `rand::random::<u32>()`: a number drawn from the thread's generator,
/// any `u32`. Nothing is promised of which one.
#[verifier::external_body]
fn random_u32() -> (r: u32) {
    rand::random::<u32>()
}

/// The rectangle made from four draws: each edge is the draw's remainder
/// by the client width or height (negative for a negative draw).
pub open spec fn spec_rect_from_draws(l: i32, t: i32, r: i32, b: i32, cx: i32, cy: i32) -> Rect {
    Rect {
        left: trunc_rem(l as int, cx as int) as i32,
        top: trunc_rem(t as int, cy as int) as i32,
        right: trunc_rem(r as int, cx as int) as i32,
        bottom: trunc_rem(b as int, cy as int) as i32,
    }
}

pub fn rect_from_draws(l: i32, t: i32, r: i32, b: i32, cx: i32, cy: i32) -> (rect: Rect)
    requires
        cx > 0,
        cy > 0,
    ensures
        rect == spec_rect_from_draws(l, t, r, b, cx, cy),
{
    Rect { left: rem_i32(l, cx), top: rem_i32(t, cy), right: rem_i32(r, cx), bottom: rem_i32(b, cy) }
}

/// The color made from three draws: each one's remainder by 256.
pub fn color_from_draws(r: u32, g: u32, b: u32) -> (c: u32)
    ensures
        c == color_value((r % 256) as int, (g % 256) as int, (b % 256) as int),
{
    rgb((r % 256) as i32, (g % 256) as i32, (b % 256) as i32)
}

/// A random rectangle and color for a client area of `cx` by `cy`, or none
/// while the area is empty. Each edge lies strictly within the client
/// width or height of the origin (negative edges included), and the color
/// is a 24-bit value.
pub fn random_rect(cx: i32, cy: i32) -> (r: Option<(Rect, u32)>)
    requires
        cx >= 0,
        cy >= 0,
    ensures
        r is None <==> (cx == 0 || cy == 0),
        r matches Some((rect, color)) ==> {
            &&& abs(rect.left as int) < cx && abs(rect.right as int) < cx
            &&& abs(rect.top as int) < cy && abs(rect.bottom as int) < cy
            &&& color < 0x100_0000
        },
{
    if cx == 0 || cy == 0 {
        return None;
    }
    let l = random_i32();
    let t = random_i32();
    let rr = random_i32();
    let b = random_i32();
    let rect = Rect { left: rem_i32(l, cx), top: rem_i32(t, cy), right: rem_i32(rr, cx), bottom: rem_i32(b, cy) };
    let red = random_u32();
    let green = random_u32();
    let blue = random_u32();
    let color = color_from_draws(red, green, blue);
    assert(color_value((red % 256) as int, (green % 256) as int, (blue % 256) as int) < 0x100_0000);
    Some((rect, color))
}

/// The rectangle drawn by the worker thread from four draws: the two
/// horizontal remainders ordered left to right, the two vertical ones top
/// to bottom.
pub open spec fn spec_ordered_rect(xl: i32, xr: i32, yt: i32, yb: i32, cx: i32, cy: i32) -> Rect {
    let a = trunc_rem(xl as int, cx as int);
    let b = trunc_rem(xr as int, cx as int);
    let c = trunc_rem(yt as int, cy as int);
    let d = trunc_rem(yb as int, cy as int);
    Rect {
        left: (if a <= b { a } else { b }) as i32,
        top: (if c <= d { c } else { d }) as i32,
        right: (if a <= b { b } else { a }) as i32,
        bottom: (if c <= d { d } else { c }) as i32,
    }
}

pub fn ordered_rect(xl: i32, xr: i32, yt: i32, yb: i32, cx: i32, cy: i32) -> (rect: Rect)
    requires
        cx > 0,
        cy > 0,
    ensures
        rect == spec_ordered_rect(xl, xr, yt, yb, cx, cy),
{
    let a = rem_i32(xl, cx);
    let b = rem_i32(xr, cx);
    let c = rem_i32(yt, cy);
    let d = rem_i32(yb, cy);
    Rect {
        left: if a <= b { a } else { b },
        top: if c <= d { c } else { d },
        right: if a <= b { b } else { a },
        bottom: if c <= d { d } else { c },
    }
}

/// The worker thread's color from three draws: each one's remainder by
/// 255 (negative for a negative draw), taken to its low byte.
pub fn thread_color(r: i32, g: i32, b: i32) -> (c: u32)
    ensures
        c == color_value(trunc_rem(r as int, 255), trunc_rem(g as int, 255), trunc_rem(b as int, 255)),
{
    rgb(rem_i32(r, 255), rem_i32(g, 255), rem_i32(b, 255))
}

/// A random rectangle and color as the worker thread draws them, or none
/// while the client area is empty; the rectangle's edges are ordered.
pub fn random_ordered_rect(cx: i32, cy: i32) -> (r: Option<(Rect, u32)>)
    requires
        cx >= 0,
        cy >= 0,
    ensures
        r is None <==> (cx == 0 || cy == 0),
        r matches Some((rect, color)) ==> {
            &&& rect.left <= rect.right && rect.top <= rect.bottom
            &&& abs(rect.left as int) < cx && abs(rect.right as int) < cx
            &&& abs(rect.top as int) < cy && abs(rect.bottom as int) < cy
            &&& color < 0x100_0000
        },
{
    if cx == 0 || cy == 0 {
        return None;
    }
    let xl = random_i32();
    let xr = random_i32();
    let yt = random_i32();
    let yb = random_i32();
    let rect = ordered_rect(xl, xr, yt, yb, cx, cy);
    let red = random_i32();
    let green = random_i32();
    let blue = random_i32();
    let color = thread_color(red, green, blue);
    Some((rect, color))
}

} // verus!
