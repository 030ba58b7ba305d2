//! The checkerboard: a five by five grid of boxes that a click marks and
//! unmarks.
use vstd::prelude::*;
use crate::geom::{Rect, Placement, contains};

verus! {

/// Boxes across and down.
pub const DIVISIONS: i32 = 5;

/// Which boxes are marked, row by row.
#[derive(Debug)]
pub struct Checker {
    pub state: Vec<bool>,
}

/// The answer to a click.
#[derive(Clone, Copy, PartialEq, Eq, Structural, Debug)]
pub enum Click {
    /// The box at this column and row changed; its rectangle must be drawn
    /// again.
    Toggled { x: i32, y: i32, rect: Rect },
    /// The click fell outside the grid.
    Beep,
}

/// The rectangle of the box at column `x` and row `y`.
pub open spec fn box_rect(x: int, y: int, cx_block: int, cy_block: int) -> Rect {
    Rect {
        left: (x * cx_block) as i32,
        top: (y * cy_block) as i32,
        right: ((x + 1) * cx_block) as i32,
        bottom: ((y + 1) * cy_block) as i32,
    }
}

/// The marks after a click at `(px, py)`.
pub open spec fn clicked(state: Seq<bool>, px: int, py: int, cx_block: int, cy_block: int) -> Seq<bool> {
    let x = px / cx_block;
    let y = py / cy_block;
    if x < DIVISIONS && y < DIVISIONS {
        state.update(y * DIVISIONS + x, !state[y * DIVISIONS + x])
    } else {
        state
    }
}

/// The size of a box: a fifth of the client area each way.
pub fn block_size(cx_client: i32, cy_client: i32) -> (r: (i32, i32))
    requires
        0 <= cx_client <= 65535,
        0 <= cy_client <= 65535,
    ensures
        r.0 == cx_client / DIVISIONS,
        r.1 == cy_client / DIVISIONS,
{
    (cx_client / DIVISIONS, cy_client / DIVISIONS)
}

/// The rectangle of a box, for drawing it.
pub fn cell_rect(x: i32, y: i32, cx_block: i32, cy_block: i32) -> (r: Rect)
    requires
        0 <= x < DIVISIONS,
        0 <= y < DIVISIONS,
        0 <= cx_block <= 13107,
        0 <= cy_block <= 13107,
    ensures
        r == box_rect(x as int, y as int, cx_block as int, cy_block as int),
{
    proof {
        assert(0 <= (x + 1) * cx_block <= 5 * 13107) by (nonlinear_arith)
            requires 0 <= x < 5, 0 <= cx_block <= 13107;
        assert(0 <= (y + 1) * cy_block <= 5 * 13107) by (nonlinear_arith)
            requires 0 <= y < 5, 0 <= cy_block <= 13107;
        assert(0 <= x * cx_block <= (x + 1) * cx_block) by (nonlinear_arith)
            requires 0 <= x < 5, 0 <= cx_block <= 13107;
        assert(0 <= y * cy_block <= (y + 1) * cy_block) by (nonlinear_arith)
            requires 0 <= y < 5, 0 <= cy_block <= 13107;
    }
    Rect { left: x * cx_block, top: y * cy_block, right: (x + 1) * cx_block, bottom: (y + 1) * cy_block }
}

impl Checker {
    /// No box marked.
    pub fn new() -> (c: Checker)
        ensures
            c.state@ == Seq::new(25, |i: int| false),
    {
        let mut state: Vec<bool> = Vec::new();
        let mut i: i32 = 0;
        while i < 25
            invariant
                0 <= i <= 25,
                state@ == Seq::new(i as nat, |j: int| false),
            decreases 25 - i,
        {
            state.push(false);
            i = i + 1;
            assert(state@ =~= Seq::new(i as nat, |j: int| false));
        }
        Checker { state }
    }

    /// Whether the box at column `x` and row `y` is marked.
    pub fn is_marked(&self, x: i32, y: i32) -> (r: bool)
        requires
            self.state@.len() == 25,
            0 <= x < DIVISIONS,
            0 <= y < DIVISIONS,
        ensures
            r == self.state@[y * DIVISIONS + x],
    {
        self.state[(y * DIVISIONS + x) as usize]
    }

    /// A click at `(px, py)`: the box under it changes between marked and
    /// not marked; a click right of or below the grid only beeps.
    pub fn click(&mut self, px: i32, py: i32, cx_block: i32, cy_block: i32) -> (r: Click)
        requires
            old(self).state@.len() == 25,
            0 <= px,
            0 <= py,
            1 <= cx_block <= 13107,
            1 <= cy_block <= 13107,
        ensures
            final(self).state@ == clicked(old(self).state@, px as int, py as int, cx_block as int, cy_block as int),
            ({
                let x = px / cx_block;
                let y = py / cy_block;
                if x < DIVISIONS && y < DIVISIONS {
                    r == Click::Toggled { x: x as i32, y: y as i32, rect: box_rect(x as int, y as int, cx_block as int, cy_block as int) }
                } else {
                    r == Click::Beep
                }
            }),
    {
        let x = px / cx_block;
        let y = py / cy_block;
        if x < DIVISIONS && y < DIVISIONS {
            let i = (y * DIVISIONS + x) as usize;
            let v = self.state[i];
            self.state.set(i, !v);
            Click::Toggled { x, y, rect: cell_rect(x, y, cx_block, cy_block) }
        } else {
            Click::Beep
        }
    }
}

/// A click marks or unmarks the box it falls in, and that box's rectangle
/// holds the click.
pub proof fn law_click_in_its_box(px: int, py: int, cx_block: int, cy_block: int)
    requires
        0 <= px,
        0 <= py,
        1 <= cx_block <= 13107,
        1 <= cy_block <= 13107,
        px / cx_block < DIVISIONS,
        py / cy_block < DIVISIONS,
    ensures
        contains(box_rect(px / cx_block, py / cy_block, cx_block, cy_block), px, py),
{
    let x = px / cx_block;
    let y = py / cy_block;
    assert(x * cx_block <= px < (x + 1) * cx_block) by (nonlinear_arith)
        requires x == px / cx_block, cx_block >= 1, px >= 0;
    assert(y * cy_block <= py < (y + 1) * cy_block) by (nonlinear_arith)
        requires y == py / cy_block, cy_block >= 1, py >= 0;
    assert(0 <= (x + 1) * cx_block <= 5 * 13107) by (nonlinear_arith)
        requires 0 <= x < 5, 0 <= cx_block <= 13107;
    assert(0 <= (y + 1) * cy_block <= 5 * 13107) by (nonlinear_arith)
        requires 0 <= y < 5, 0 <= cy_block <= 13107;
    assert(0 <= x * cx_block <= (x + 1) * cx_block) by (nonlinear_arith)
        requires 0 <= x < 5, 0 <= cx_block <= 13107;
    assert(0 <= y * cy_block <= (y + 1) * cy_block) by (nonlinear_arith)
        requires 0 <= y < 5, 0 <= cy_block <= 13107;
}

/// A second click at the same place takes back the first.
pub proof fn law_click_twice(state: Seq<bool>, px: int, py: int, cx_block: int, cy_block: int)
    requires
        state.len() == 25,
        0 <= px,
        0 <= py,
        1 <= cx_block,
        1 <= cy_block,
    ensures
        clicked(clicked(state, px, py, cx_block, cy_block), px, py, cx_block, cy_block) == state,
{
    let x = px / cx_block;
    let y = py / cy_block;
    if x < DIVISIONS && y < DIVISIONS {
        assert(0 <= x && 0 <= y);
        let once = clicked(state, px, py, cx_block, cy_block);
        assert(clicked(once, px, py, cx_block, cy_block) =~= state);
    }
}

/// A click changes at most the one box it falls in.
pub proof fn law_click_changes_one_box(state: Seq<bool>, px: int, py: int, cx_block: int, cy_block: int, i: int)
    requires
        state.len() == 25,
        0 <= px,
        0 <= py,
        1 <= cx_block,
        1 <= cy_block,
        0 <= i < 25,
        i != (py / cy_block) * DIVISIONS + px / cx_block,
    ensures
        clicked(state, px, py, cx_block, cy_block)[i] == state[i],
{
}

/// The box windows of the second checkerboard: each box a child window
/// whose identifier holds its row in the high byte and its column in the
/// low byte.
pub fn child_id(x: i32, y: i32) -> (id: i32)
    requires
        0 <= x < DIVISIONS,
        0 <= y < DIVISIONS,
    ensures
        id == y * 256 + x,
{
    assert((y << 8 | x) == y * 256 + x) by (bit_vector)
        requires 0 <= x < 5, 0 <= y < 5;
    y << 8 | x
}

/// Where the child window of a box goes.
pub fn child_placement(x: i32, y: i32, cx_block: i32, cy_block: i32) -> (p: Placement)
    requires
        0 <= x < DIVISIONS,
        0 <= y < DIVISIONS,
        0 <= cx_block <= 13107,
        0 <= cy_block <= 13107,
    ensures
        p == (Placement { x: (x * cx_block) as i32, y: (y * cy_block) as i32, width: cx_block, height: cy_block }),
{
    proof {
        assert(0 <= x * cx_block <= 5 * 13107) by (nonlinear_arith)
            requires 0 <= x < 5, 0 <= cx_block <= 13107;
        assert(0 <= y * cy_block <= 5 * 13107) by (nonlinear_arith)
            requires 0 <= y < 5, 0 <= cy_block <= 13107;
    }
    Placement { x: x * cx_block, y: y * cy_block, width: cx_block, height: cy_block }
}

/// A box window's mark after a click: 0 and 1 swap.
pub fn child_toggle(mark: i32) -> (r: i32)
    ensures
        r == 1 ^ mark,
{
    1 ^ mark
}

/// Two clicks on a box window leave its mark as it was.
pub proof fn law_child_toggle_twice(mark: i32)
    ensures
        1 ^ (1 ^ mark) == mark,
{
    assert(1 ^ (1 ^ mark) == mark) by (bit_vector);
}

} // verus!
