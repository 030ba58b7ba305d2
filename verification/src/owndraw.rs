//! The owner-drawn buttons that shrink and grow their window: where the
//! buttons go, how the window's rectangle changes, and the arrows drawn
//! on each button.
use vstd::prelude::*;
use crate::geom::{Point, Rect, Placement};
use crate::arith::{trunc_div, div_i32};

verus! {

pub const ID_SMALLER: usize = 1;
pub const ID_LARGER: usize = 2;
pub const ODS_SELECTED: u32 = 0x1;
pub const ODS_FOCUS: u32 = 0x10;

/// The size of each button: eight dialog units across, four down.
pub fn button_size(cx_char: i32, cy_char: i32) -> (s: (i32, i32))
    requires
        0 <= cx_char <= 65535,
        0 <= cy_char <= 65535,
    ensures
        s == ((8 * cx_char) as i32, (4 * cy_char) as i32),
{
    (8 * cx_char, 4 * cy_char)
}

/// The two buttons side by side in the middle of the client area, half a
/// button's width apart from the center each.
pub fn button_placements(cx_client: i32, cy_client: i32, width: i32, height: i32) -> (p: (Placement, Placement))
    requires
        0 <= cx_client <= 65535,
        0 <= cy_client <= 65535,
        0 <= width <= 0x10_0000,
        0 <= height <= 0x10_0000,
    ensures
        p == (Placement { x: (cx_client / 2 - 3 * width / 2) as i32, y: (cy_client / 2 - height / 2) as i32, width, height },
            Placement { x: (cx_client / 2 + width / 2) as i32, y: (cy_client / 2 - height / 2) as i32, width, height }),
{
    (Placement { x: cx_client / 2 - 3 * width / 2, y: cy_client / 2 - height / 2, width, height },
        Placement { x: cx_client / 2 + width / 2, y: cy_client / 2 - height / 2, width, height })
}

pub open spec fn rect_ok(r: Rect) -> bool {
    -0x1000_0000 <= r.left <= 0x1000_0000 && -0x1000_0000 <= r.top <= 0x1000_0000
        && -0x1000_0000 <= r.right <= 0x1000_0000 && -0x1000_0000 <= r.bottom <= 0x1000_0000
}

/// The window's new rectangle after a button: the smaller button moves
/// each edge inward by a twentieth of the client size, the larger button
/// outward; any other id leaves it.
pub open spec fn spec_resized(rc: Rect, id: usize, cx_client: int, cy_client: int) -> Rect {
    let dx = cx_client / 20;
    let dy = cy_client / 20;
    if id == ID_SMALLER {
        Rect { left: (rc.left + dx) as i32, top: (rc.top + dy) as i32, right: (rc.right - dx) as i32, bottom: (rc.bottom - dy) as i32 }
    } else if id == ID_LARGER {
        Rect { left: (rc.left - dx) as i32, top: (rc.top - dy) as i32, right: (rc.right + dx) as i32, bottom: (rc.bottom + dy) as i32 }
    } else {
        rc
    }
}

pub fn resized_window(rc: Rect, id: usize, cx_client: i32, cy_client: i32) -> (r: Placement)
    requires
        rect_ok(rc),
        0 <= cx_client <= 65535,
        0 <= cy_client <= 65535,
    ensures
        ({
            let n = spec_resized(rc, id, cx_client as int, cy_client as int);
            r == (Placement { x: n.left, y: n.top, width: (n.right - n.left) as i32, height: (n.bottom - n.top) as i32 })
        }),
{
    let dx = cx_client / 20;
    let dy = cy_client / 20;
    let n = if id == ID_SMALLER {
        Rect { left: rc.left + dx, top: rc.top + dy, right: rc.right - dx, bottom: rc.bottom - dy }
    } else if id == ID_LARGER {
        Rect { left: rc.left - dx, top: rc.top - dy, right: rc.right + dx, bottom: rc.bottom + dy }
    } else {
        rc
    };
    Placement { x: n.left, y: n.top, width: n.right - n.left, height: n.bottom - n.top }
}

/// The arrows of a button, in eighths of its width and height: four
/// triangles pointing inward for the smaller button, outward for the
/// larger one.
pub open spec fn arrow_eighths(id: usize) -> Seq<Seq<(int, int)>> {
    if id == ID_SMALLER {
        seq![
            seq![(3, 1), (5, 1), (4, 3)],
            seq![(7, 3), (7, 5), (5, 4)],
            seq![(5, 7), (3, 7), (4, 5)],
            seq![(1, 5), (1, 3), (3, 4)],
        ]
    } else if id == ID_LARGER {
        seq![
            seq![(5, 3), (3, 3), (4, 1)],
            seq![(5, 5), (5, 3), (7, 4)],
            seq![(3, 5), (5, 5), (4, 7)],
            seq![(3, 3), (3, 5), (1, 4)],
        ]
    } else {
        seq![]
    }
}

pub open spec fn eighth_point(e: (int, int), cx: int, cy: int) -> Point {
    Point { x: (e.0 * cx / 8) as i32, y: (e.1 * cy / 8) as i32 }
}

fn at(kx: i32, ky: i32, cx: i32, cy: i32) -> (p: Point)
    requires
        0 <= kx <= 8,
        0 <= ky <= 8,
        0 <= cx <= 65535,
        0 <= cy <= 65535,
    ensures
        p == eighth_point((kx as int, ky as int), cx as int, cy as int),
{
    assert(0 <= kx * cx <= 8 * 65535) by (nonlinear_arith) requires 0 <= kx <= 8, 0 <= cx <= 65535;
    assert(0 <= ky * cy <= 8 * 65535) by (nonlinear_arith) requires 0 <= ky <= 8, 0 <= cy <= 65535;
    Point { x: kx * cx / 8, y: ky * cy / 8 }
}

fn triangle(a: (i32, i32), b: (i32, i32), c: (i32, i32), cx: i32, cy: i32) -> (t: Vec<Point>)
    requires
        0 <= a.0 <= 8, 0 <= a.1 <= 8, 0 <= b.0 <= 8, 0 <= b.1 <= 8, 0 <= c.0 <= 8, 0 <= c.1 <= 8,
        0 <= cx <= 65535,
        0 <= cy <= 65535,
    ensures
        t@ == seq![eighth_point((a.0 as int, a.1 as int), cx as int, cy as int),
            eighth_point((b.0 as int, b.1 as int), cx as int, cy as int),
            eighth_point((c.0 as int, c.1 as int), cx as int, cy as int)],
{
    let t = vec![at(a.0, a.1, cx, cy), at(b.0, b.1, cx, cy), at(c.0, c.1, cx, cy)];
    assert(t@ =~= seq![eighth_point((a.0 as int, a.1 as int), cx as int, cy as int),
        eighth_point((b.0 as int, b.1 as int), cx as int, cy as int),
        eighth_point((c.0 as int, c.1 as int), cx as int, cy as int)]);
    t
}

/// The triangles drawn on the button `id` of `cx` by `cy` pixels.
pub fn arrows(id: usize, cx: i32, cy: i32) -> (t: Vec<Vec<Point>>)
    requires
        0 <= cx <= 65535,
        0 <= cy <= 65535,
    ensures
        t@.len() == arrow_eighths(id).len(),
        forall|k: int| 0 <= k < t@.len() ==> (#[trigger] t@[k])@.len() == 3
            && forall|j: int| 0 <= j < 3 ==> t@[k]@[j] == eighth_point(arrow_eighths(id)[k][j], cx as int, cy as int),
{
    let t = if id == ID_SMALLER {
        vec![
            triangle((3, 1), (5, 1), (4, 3), cx, cy),
            triangle((7, 3), (7, 5), (5, 4), cx, cy),
            triangle((5, 7), (3, 7), (4, 5), cx, cy),
            triangle((1, 5), (1, 3), (3, 4), cx, cy),
        ]
    } else if id == ID_LARGER {
        vec![
            triangle((5, 3), (3, 3), (4, 1), cx, cy),
            triangle((5, 5), (5, 3), (7, 4), cx, cy),
            triangle((3, 5), (5, 5), (4, 7), cx, cy),
            triangle((3, 3), (3, 5), (1, 4), cx, cy),
        ]
    } else {
        Vec::new()
    };
    assert forall|k: int| 0 <= k < t@.len() implies (#[trigger] t@[k])@.len() == 3
        && forall|j: int| 0 <= j < 3 ==> t@[k]@[j] == eighth_point(arrow_eighths(id)[k][j], cx as int, cy as int) by {
        assert(t@[k]@.len() == 3);
    }
    t
}

/// The focus rectangle: the button's rectangle moved in by a sixteenth of
/// its size on each side (rounded toward zero).
pub fn focus_rect(rc: Rect) -> (r: Rect)
    requires
        rect_ok(rc),
    ensures
        ({
            let dx = trunc_div(rc.right - rc.left, 16);
            let dy = trunc_div(rc.bottom - rc.top, 16);
            r == (Rect { left: (rc.left + dx) as i32, top: (rc.top + dy) as i32,
                right: (rc.right - dx) as i32, bottom: (rc.bottom - dy) as i32 })
        }),
{
    let dx = div_i32(rc.right - rc.left, 16);
    let dy = div_i32(rc.bottom - rc.top, 16);
    Rect { left: rc.left + dx, top: rc.top + dy, right: rc.right - dx, bottom: rc.bottom - dy }
}

} // verus!
