//! Rubber-band rectangles: drag with the left button to outline a
//! rectangle, release to fill it.
use vstd::prelude::*;
use crate::geom::{Point, Rect};
use crate::words::{loword, hiword, signed_coordinate, low_word, high_word, signed_word};

verus! {

/// What the window has to do.
#[derive(Clone, Copy, PartialEq, Eq, Structural, Debug)]
pub enum BlockAction {
    /// Draw (or, drawn a second time, erase) the outline of this
    /// rectangle by inverting the pixels under it.
    Outline(Rect),
    /// Take the mouse so that the drag is followed outside the window.
    CaptureMouse,
    /// Give the mouse back.
    ReleaseMouse,
    /// Show the cross-hair cursor.
    CrossCursor,
    /// Show the arrow cursor.
    ArrowCursor,
    /// Paint the window anew.
    Invalidate,
}

/// The drag in progress and the rectangle last made.
#[derive(Clone, Copy, PartialEq, Eq, Structural, Debug)]
pub struct BlockOut {
    /// Where the drag started.
    pub beg: Point,
    /// Where the mouse is in the drag.
    pub end: Point,
    /// The corners of the rectangle last made.
    pub box_beg: Point,
    pub box_end: Point,
    /// A drag is in progress.
    pub blocking: bool,
    /// A rectangle has been made.
    pub valid_box: bool,
}

/// The rectangle between two corners.
pub open spec fn span(a: Point, b: Point) -> Rect {
    Rect { left: a.x, top: a.y, right: b.x, bottom: b.y }
}

/// The point of a button-down message: both words unsigned.
pub open spec fn down_point(lparam: isize) -> Point {
    Point { x: low_word(lparam as int) as i32, y: high_word(lparam as int) as i32 }
}

/// The point of a move or button-up message: both words signed, so that
/// a captured mouse left of or above the window gives negative numbers.
pub open spec fn drag_point(lparam: isize) -> Point {
    Point { x: signed_word(low_word(lparam as int)) as i32, y: signed_word(high_word(lparam as int)) as i32 }
}

fn point_of(lparam: isize, signed: bool) -> (p: Point)
    ensures
        signed ==> p == drag_point(lparam),
        !signed ==> p == down_point(lparam),
{
    let x = loword(lparam);
    let y = hiword(lparam);
    if signed {
        Point { x: signed_coordinate(x), y: signed_coordinate(y) }
    } else {
        Point { x, y }
    }
}

impl BlockOut {
    /// No drag, no rectangle; all corners at the origin.
    pub fn new() -> (b: BlockOut)
        ensures
            b == (BlockOut {
                beg: Point { x: 0, y: 0 },
                end: Point { x: 0, y: 0 },
                box_beg: Point { x: 0, y: 0 },
                box_end: Point { x: 0, y: 0 },
                blocking: false,
                valid_box: false,
            }),
    {
        let o = Point { x: 0, y: 0 };
        BlockOut { beg: o, end: o, box_beg: o, box_end: o, blocking: false, valid_box: false }
    }

    /// The left button goes down: a drag starts at the mouse, its outline
    /// (a point) is drawn, the mouse is captured and the cursor becomes a
    /// cross-hair.
    pub fn button_down(&mut self, lparam: isize) -> (actions: Vec<BlockAction>)
        ensures
            final(self).beg == down_point(lparam),
            final(self).end == down_point(lparam),
            final(self).blocking,
            final(self).valid_box == old(self).valid_box,
            final(self).box_beg == old(self).box_beg,
            final(self).box_end == old(self).box_end,
            actions@ == seq![
                BlockAction::Outline(span(down_point(lparam), down_point(lparam))),
                BlockAction::CaptureMouse,
                BlockAction::CrossCursor,
            ],
    {
        let p = point_of(lparam, false);
        self.beg = p;
        self.end = p;
        let mut actions: Vec<BlockAction> = Vec::new();
        actions.push(BlockAction::Outline(Rect { left: p.x, top: p.y, right: p.x, bottom: p.y }));
        actions.push(BlockAction::CaptureMouse);
        actions.push(BlockAction::CrossCursor);
        self.blocking = true;
        assert(actions@ =~= seq![
            BlockAction::Outline(span(down_point(lparam), down_point(lparam))),
            BlockAction::CaptureMouse,
            BlockAction::CrossCursor,
        ]);
        actions
    }

    /// The mouse moves: in a drag the old outline is erased, the drag
    /// follows the mouse, and the new outline is drawn. Out of a drag
    /// nothing happens.
    pub fn mouse_move(&mut self, lparam: isize) -> (actions: Vec<BlockAction>)
        ensures
            !old(self).blocking ==> *final(self) == *old(self) && actions@.len() == 0,
            old(self).blocking ==> {
                &&& *final(self) == BlockOut { end: drag_point(lparam), ..*old(self) }
                &&& actions@ == seq![
                    BlockAction::CrossCursor,
                    BlockAction::Outline(span(old(self).beg, old(self).end)),
                    BlockAction::Outline(span(old(self).beg, drag_point(lparam))),
                ]
            },
    {
        let mut actions: Vec<BlockAction> = Vec::new();
        if self.blocking {
            actions.push(BlockAction::CrossCursor);
            actions.push(BlockAction::Outline(Rect { left: self.beg.x, top: self.beg.y, right: self.end.x, bottom: self.end.y }));
            self.end = point_of(lparam, true);
            actions.push(BlockAction::Outline(Rect { left: self.beg.x, top: self.beg.y, right: self.end.x, bottom: self.end.y }));
            assert(actions@ =~= seq![
                BlockAction::CrossCursor,
                BlockAction::Outline(span(old(self).beg, old(self).end)),
                BlockAction::Outline(span(old(self).beg, drag_point(lparam))),
            ]);
        }
        actions
    }

    /// The left button comes up: a drag ends, its outline is erased, the
    /// rectangle from the start of the drag to the mouse is kept, the mouse
    /// is released, the cursor becomes an arrow and the window is painted
    /// anew. Out of a drag nothing happens.
    pub fn button_up(&mut self, lparam: isize) -> (actions: Vec<BlockAction>)
        ensures
            !old(self).blocking ==> *final(self) == *old(self) && actions@.len() == 0,
            old(self).blocking ==> {
                &&& *final(self) == BlockOut {
                    box_beg: old(self).beg,
                    box_end: drag_point(lparam),
                    blocking: false,
                    valid_box: true,
                    ..*old(self)
                }
                &&& actions@ == seq![
                    BlockAction::Outline(span(old(self).beg, old(self).end)),
                    BlockAction::ReleaseMouse,
                    BlockAction::ArrowCursor,
                    BlockAction::Invalidate,
                ]
            },
    {
        let mut actions: Vec<BlockAction> = Vec::new();
        if self.blocking {
            actions.push(BlockAction::Outline(Rect { left: self.beg.x, top: self.beg.y, right: self.end.x, bottom: self.end.y }));
            self.box_beg = self.beg;
            self.box_end = point_of(lparam, true);
            actions.push(BlockAction::ReleaseMouse);
            actions.push(BlockAction::ArrowCursor);
            self.blocking = false;
            self.valid_box = true;
            actions.push(BlockAction::Invalidate);
            assert(actions@ =~= seq![
                BlockAction::Outline(span(old(self).beg, old(self).end)),
                BlockAction::ReleaseMouse,
                BlockAction::ArrowCursor,
                BlockAction::Invalidate,
            ]);
        }
        actions
    }

    /// What a paint draws: the rectangle made last, filled black, and the
    /// outline of the drag in progress.
    pub fn paint(&self) -> (r: (Option<Rect>, Option<Rect>))
        ensures
            r.0 == (if self.valid_box { Some(span(self.box_beg, self.box_end)) } else { None::<Rect> }),
            r.1 == (if self.blocking { Some(span(self.beg, self.end)) } else { None::<Rect> }),
    {
        let filled = if self.valid_box {
            Some(Rect { left: self.box_beg.x, top: self.box_beg.y, right: self.box_end.x, bottom: self.box_end.y })
        } else {
            None
        };
        let outline = if self.blocking {
            Some(Rect { left: self.beg.x, top: self.beg.y, right: self.end.x, bottom: self.end.y })
        } else {
            None
        };
        (filled, outline)
    }
}

/// A drag from a press to a release keeps the rectangle from the press
/// point to the release point, whatever moves came between.
pub proof fn law_drag_makes_box(start: BlockOut, down: isize, moves: Seq<isize>, up: isize)
    ensures
        ({
            let pressed = BlockOut { beg: down_point(down), end: down_point(down), blocking: true, ..start };
            let dragged = drag_moves(pressed, moves);
            let released = BlockOut { box_beg: dragged.beg, box_end: drag_point(up), blocking: false, valid_box: true, ..dragged };
            &&& dragged.blocking
            &&& released.box_beg == down_point(down)
            &&& released.box_end == drag_point(up)
        }),
{
    let pressed = BlockOut { beg: down_point(down), end: down_point(down), blocking: true, ..start };
    lemma_moves_keep_start(pressed, moves);
}

/// The drag after a run of moves.
pub open spec fn drag_moves(b: BlockOut, moves: Seq<isize>) -> BlockOut
    decreases moves.len(),
{
    if moves.len() == 0 {
        b
    } else {
        let before = drag_moves(b, moves.drop_last());
        if before.blocking { BlockOut { end: drag_point(moves.last()), ..before } } else { before }
    }
}

proof fn lemma_moves_keep_start(b: BlockOut, moves: Seq<isize>)
    requires
        b.blocking,
    ensures
        drag_moves(b, moves).blocking,
        drag_moves(b, moves).beg == b.beg,
    decreases moves.len(),
{
    if moves.len() > 0 {
        lemma_moves_keep_start(b, moves.drop_last());
    }
}

} // verus!
