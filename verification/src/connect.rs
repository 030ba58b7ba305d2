//! Connect-the-dots: the points met while the left button is held, and
//! the lines that join every two of them.
use vstd::prelude::*;
use crate::geom::Point;
use crate::words::{loword, hiword, low_word, high_word};

verus! {

/// The most points kept.
pub const MAXPOINTS: usize = 1000;
/// The left-button flag of a mouse message.
pub const MK_LBUTTON: usize = 0x0001;

/// The points met.
#[derive(Debug)]
pub struct Connect {
    pub points: Vec<Point>,
}

/// The lines from point `i` to each later point, then those of the later
/// points in turn.
pub open spec fn pairs_from(p: Seq<Point>, i: int) -> Seq<(Point, Point)>
    decreases p.len() - i,
{
    if i < 0 || i >= p.len() {
        seq![]
    } else {
        Seq::new((p.len() - i - 1) as nat, |k: int| (p[i], p[i + 1 + k])) + pairs_from(p, i + 1)
    }
}

/// The point of a mouse message.
pub open spec fn message_point(lparam: isize) -> Point {
    Point { x: low_word(lparam as int) as i32, y: high_word(lparam as int) as i32 }
}

impl Connect {
    /// No points.
    pub fn new() -> (c: Connect)
        ensures
            c.points@.len() == 0,
    {
        Connect { points: Vec::new() }
    }

    /// The left button goes down: the points are forgotten (and the window
    /// is to be erased).
    pub fn button_down(&mut self)
        ensures
            final(self).points@.len() == 0,
    {
        self.points.clear();
    }

    /// The mouse moves: with the left button held and room left, its point
    /// is kept and returned (to be marked on the window).
    pub fn mouse_move(&mut self, flags: usize, lparam: isize) -> (r: Option<Point>)
        ensures
            (flags & MK_LBUTTON == MK_LBUTTON && old(self).points@.len() < MAXPOINTS) ==> {
                &&& final(self).points@ == old(self).points@.push(message_point(lparam))
                &&& r == Some(message_point(lparam))
            },
            !(flags & MK_LBUTTON == MK_LBUTTON && old(self).points@.len() < MAXPOINTS) ==> {
                &&& final(self).points@ == old(self).points@
                &&& r == None::<Point>
            },
            old(self).points@.len() <= MAXPOINTS ==> final(self).points@.len() <= MAXPOINTS,
    {
        if (flags & MK_LBUTTON) == MK_LBUTTON && self.points.len() < MAXPOINTS {
            let p = Point { x: loword(lparam), y: hiword(lparam) };
            self.points.push(p);
            Some(p)
        } else {
            None
        }
    }

    /// The lines to draw: every point joined to every later point.
    pub fn lines(&self) -> (r: Vec<(Point, Point)>)
        ensures
            r@ == pairs_from(self.points@, 0),
    {
        let n = self.points.len();
        let mut r: Vec<(Point, Point)> = Vec::new();
        let mut i: usize = 0;
        let ghost p = self.points@;
        while i < n
            invariant
                p == self.points@,
                n == p.len(),
                i <= n,
                r@ + pairs_from(p, i as int) == pairs_from(p, 0),
            decreases n - i,
        {
            let ghost before = r@;
            let mut j = i + 1;
            while j < n
                invariant
                    p == self.points@,
                    n == p.len(),
                    i < n,
                    i + 1 <= j <= n,
                    r@ == before + Seq::new((j - i - 1) as nat, |k: int| (p[i as int], p[i + 1 + k])),
                decreases n - j,
            {
                r.push((self.points[i], self.points[j]));
                j = j + 1;
                assert(r@ =~= before + Seq::new((j - i - 1) as nat, |k: int| (p[i as int], p[i + 1 + k])));
            }
            assert(pairs_from(p, i as int) == Seq::new((n - i - 1) as nat, |k: int| (p[i as int], p[i + 1 + k]))
                + pairs_from(p, i + 1));
            assert(r@ + pairs_from(p, i + 1) =~= before + pairs_from(p, i as int));
            i = i + 1;
        }
        assert(pairs_from(p, n as int) =~= Seq::<(Point, Point)>::empty());
        assert(r@ =~= pairs_from(p, 0));
        r
    }
}

/// Each pair of points is joined once: `n` points make `n(n-1)/2` lines.
pub proof fn law_line_count(p: Seq<Point>, i: int)
    requires
        0 <= i <= p.len(),
    ensures
        2 * pairs_from(p, i).len() == (p.len() - i) * (p.len() - i - 1),
    decreases p.len() - i,
{
    if i < p.len() {
        law_line_count(p, i + 1);
        let m = p.len() - i;
        assert(2 * (m - 1) + (m - 1) * (m - 2) == m * (m - 1)) by (nonlinear_arith);
    } else {
        assert((p.len() - i) * (p.len() - i - 1) == 0) by (nonlinear_arith)
            requires i == p.len();
    }
}

} // verus!
