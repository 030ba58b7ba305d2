//! Where the drawing programs put their figures, given the size of the
//! client area, and how the text programs lay out their columns.
use vstd::prelude::*;
use crate::geom::{Point, Rect};
use crate::words::{low_word, high_word, signed_word, loword, hiword};

verus! {

pub const MK_LBUTTON: usize = 0x0001;
pub const MK_RBUTTON: usize = 0x0002;

/// The width of capital letters: one and a half average widths in a
/// variable-pitch font (low bit of the pitch and family set), the average
/// width otherwise (both truncated as integer division does).
pub fn caps_width(cx_char: i32, pitch_and_family: u8) -> (r: i32)
    requires
        0 <= cx_char <= 0x1000_0000,
    ensures
        r == (if pitch_and_family & 1 == 1 { cx_char * 3 / 2 } else { cx_char * 2 / 2 }),
{
    let m: i32 = if pitch_and_family & 1 == 1 { 3 } else { 2 };
    cx_char * m / 2
}

/// The height of a line of text: the character height and the external
/// leading.
pub fn line_height(height: i32, external_leading: i32) -> (r: i32)
    requires
        i32::MIN <= height + external_leading <= i32::MAX,
    ensures
        r == height + external_leading,
{
    height + external_leading
}

/// The x of the description column and of the right edge of the value
/// column in a metrics table whose labels take `label_caps` capitals.
pub fn table_columns(label_caps: i32, cx_caps: i32, cx_char: i32) -> (r: (i32, i32))
    requires
        0 <= label_caps <= 100,
        0 <= cx_caps <= 0x10_0000,
        0 <= cx_char <= 0x10_0000,
    ensures
        r == ((label_caps * cx_caps) as i32, (label_caps * cx_caps + 40 * cx_char) as i32),
{
    proof {
        assert(0 <= label_caps * cx_caps <= 100 * 0x10_0000) by (nonlinear_arith)
            requires 0 <= label_caps <= 100, 0 <= cx_caps <= 0x10_0000;
    }
    let x = label_caps * cx_caps;
    (x, x + 40 * cx_char)
}

/// The width of the three columns of the metrics table: forty average
/// characters and twenty-two capitals.
pub fn table_width(cx_char: i32, cx_caps: i32) -> (w: i32)
    requires
        0 <= cx_char <= 0x10_0000,
        0 <= cx_caps <= 0x10_0000,
    ensures
        w == 40 * cx_char + 22 * cx_caps,
{
    40 * cx_char + 22 * cx_caps
}

/// The x where a row of a table scrolled right by `pos` characters starts:
/// one character in.
pub fn row_x(cx_char: i32, pos: i32) -> (x: i32)
    requires
        0 <= cx_char,
        0 <= pos,
        cx_char * (1 - pos) >= i32::MIN,
    ensures
        x == cx_char * (1 - pos),
{
    assert(cx_char * (1 - pos) <= cx_char) by (nonlinear_arith)
        requires 0 <= cx_char, 0 <= pos;
    cx_char * (1 - pos)
}

pub const HORZSIZE: i32 = 4;
pub const VERTSIZE: i32 = 6;
pub const HORZRES: i32 = 8;
pub const VERTRES: i32 = 10;
pub const BITSPIXEL: i32 = 12;
pub const PLANES: i32 = 14;
pub const NUMBRUSHES: i32 = 16;
pub const NUMPENS: i32 = 18;
pub const NUMMARKERS: i32 = 20;
pub const NUMFONTS: i32 = 22;
pub const NUMCOLORS: i32 = 24;
pub const PDEVICESIZE: i32 = 26;
pub const ASPECTX: i32 = 40;
pub const ASPECTY: i32 = 42;
pub const ASPECTXY: i32 = 44;
pub const LOGPIXELSX: i32 = 88;
pub const LOGPIXELSY: i32 = 90;
pub const SIZEPALETTE: i32 = 104;
pub const NUMRESERVED: i32 = 106;
pub const COLORRES: i32 = 108;
pub const DEVICE_CAPS_COUNT: usize = 20;

/// The device capabilities the capabilities viewer lists: the index it
/// asks for, its name and what it means, in order.
pub open spec fn device_caps() -> Seq<(i32, &'static str, &'static str)> {
    seq![
        (HORZSIZE, "HORZSIZE", "Width in millimeters:"),
        (VERTSIZE, "VERTSIZE", "Height in millimeters:"),
        (HORZRES, "HORZRES", "Width in pixels:"),
        (VERTRES, "VERTRES", "Height in raster lines:"),
        (BITSPIXEL, "BITSPIXEL", "Color bits per pixel:"),
        (PLANES, "PLANES", "Number of color planes:"),
        (NUMBRUSHES, "NUMBRUSHES", "Number of device brushes:"),
        (NUMPENS, "NUMPENS", "Number of device pens:"),
        (NUMMARKERS, "NUMMARKERS", "Number of device markers:"),
        (NUMFONTS, "NUMFONTS", "Number of device fonts:"),
        (NUMCOLORS, "NUMCOLORS", "Number of device colors:"),
        (PDEVICESIZE, "PDEVICESIZE", "Size of device structure:"),
        (ASPECTX, "ASPECTX", "Relative width of pixel:"),
        (ASPECTY, "ASPECTY", "Relative height of pixel:"),
        (ASPECTXY, "ASPECTXY", "Relative diagonal of pixel:"),
        (LOGPIXELSX, "LOGPIXELSX", "Horizontal dots per inch:"),
        (LOGPIXELSY, "LOGPIXELSY", "Vertical dots per inch:"),
        (SIZEPALETTE, "SIZEPALETTE", "Number of palette entries:"),
        (NUMRESERVED, "NUMRESERVED", "Reserved palette entries:"),
        (COLORRES, "COLORRES", "Actual color resolution:"),
    ]
}

pub fn device_cap(i: usize) -> (c: (i32, &'static str, &'static str))
    requires
        i < DEVICE_CAPS_COUNT,
    ensures
        c == device_caps()[i as int],
{
    if i == 0 { (HORZSIZE, "HORZSIZE", "Width in millimeters:") }
    else if i == 1 { (VERTSIZE, "VERTSIZE", "Height in millimeters:") }
    else if i == 2 { (HORZRES, "HORZRES", "Width in pixels:") }
    else if i == 3 { (VERTRES, "VERTRES", "Height in raster lines:") }
    else if i == 4 { (BITSPIXEL, "BITSPIXEL", "Color bits per pixel:") }
    else if i == 5 { (PLANES, "PLANES", "Number of color planes:") }
    else if i == 6 { (NUMBRUSHES, "NUMBRUSHES", "Number of device brushes:") }
    else if i == 7 { (NUMPENS, "NUMPENS", "Number of device pens:") }
    else if i == 8 { (NUMMARKERS, "NUMMARKERS", "Number of device markers:") }
    else if i == 9 { (NUMFONTS, "NUMFONTS", "Number of device fonts:") }
    else if i == 10 { (NUMCOLORS, "NUMCOLORS", "Number of device colors:") }
    else if i == 11 { (PDEVICESIZE, "PDEVICESIZE", "Size of device structure:") }
    else if i == 12 { (ASPECTX, "ASPECTX", "Relative width of pixel:") }
    else if i == 13 { (ASPECTY, "ASPECTY", "Relative height of pixel:") }
    else if i == 14 { (ASPECTXY, "ASPECTXY", "Relative diagonal of pixel:") }
    else if i == 15 { (LOGPIXELSX, "LOGPIXELSX", "Horizontal dots per inch:") }
    else if i == 16 { (LOGPIXELSY, "LOGPIXELSY", "Vertical dots per inch:") }
    else if i == 17 { (SIZEPALETTE, "SIZEPALETTE", "Number of palette entries:") }
    else if i == 18 { (NUMRESERVED, "NUMRESERVED", "Reserved palette entries:") }
    else { (COLORRES, "COLORRES", "Actual color resolution:") }
}

pub const MM_TEXT: i32 = 1;
pub const MM_LOMETRIC: i32 = 2;
pub const MM_HIMETRIC: i32 = 3;
pub const MM_LOENGLISH: i32 = 4;
pub const MM_HIENGLISH: i32 = 5;
pub const MM_TWIPS: i32 = 6;
pub const MAPPING_MODE_COUNT: usize = 6;

/// The mapping modes whose client extents the size viewer shows, with
/// their names, one per line from the fourth line (line 3, counting from
/// 0).
pub open spec fn mapping_modes() -> Seq<(i32, &'static str)> {
    seq![
        (MM_TEXT, "TEXT (pixels)"),
        (MM_LOMETRIC, "LOMETRIC (.1 mm)"),
        (MM_HIMETRIC, "HIMETRIC (.01 mm)"),
        (MM_LOENGLISH, "LOENGLISH (.01 in)"),
        (MM_HIENGLISH, "HIENGLISH (.001 in)"),
        (MM_TWIPS, "TWIPS (1/1440 in)"),
    ]
}

pub fn mapping_mode(i: usize) -> (m: (i32, &'static str, i32))
    requires
        i < MAPPING_MODE_COUNT,
    ensures
        m == (mapping_modes()[i as int].0, mapping_modes()[i as int].1, (i + 3) as i32),
{
    let line = (i + 3) as i32;
    if i == 0 { (MM_TEXT, "TEXT (pixels)", line) }
    else if i == 1 { (MM_LOMETRIC, "LOMETRIC (.1 mm)", line) }
    else if i == 2 { (MM_HIMETRIC, "HIMETRIC (.01 mm)", line) }
    else if i == 3 { (MM_LOENGLISH, "LOENGLISH (.01 in)", line) }
    else if i == 4 { (MM_HIENGLISH, "HIENGLISH (.001 in)", line) }
    else { (MM_TWIPS, "TWIPS (1/1440 in)", line) }
}

/// The y of row `i` of a table scrolled down by `pos` rows.
pub fn row_y(cy_char: i32, i: i32, pos: i32) -> (y: i32)
    requires
        i32::MIN <= cy_char * (i - pos) <= i32::MAX,
        i32::MIN <= i - pos <= i32::MAX,
    ensures
        y == cy_char * (i - pos),
{
    cy_char * (i - pos)
}

/// The figure drawn twice by the fill mode demonstration, on a 200 by 100
/// grid.
pub open spec fn figure_grid() -> Seq<(int, int)> {
    seq![(10, 70), (50, 70), (50, 10), (90, 10), (90, 50), (30, 50), (30, 90), (70, 90), (70, 30), (10, 30)]
}

/// The figure's points scaled to the client area; the second copy is the
/// same shifted right by half the width.
pub fn figure_points(cx_client: i32, cy_client: i32) -> (r: (Vec<Point>, Vec<Point>))
    requires
        0 <= cx_client <= 65535,
        0 <= cy_client <= 65535,
    ensures
        r.0@.len() == 10,
        r.1@.len() == 10,
        forall|i: int| 0 <= i < 10 ==> (#[trigger] r.0@[i]) == (Point {
            x: (cx_client * figure_grid()[i].0 / 200) as i32,
            y: (cy_client * figure_grid()[i].1 / 100) as i32,
        }),
        forall|i: int| 0 <= i < 10 ==> (#[trigger] r.1@[i]) == (Point {
            x: (cx_client * figure_grid()[i].0 / 200 + cx_client / 2) as i32,
            y: (cy_client * figure_grid()[i].1 / 100) as i32,
        }),
{
    let xs: [i32; 10] = [10, 50, 50, 90, 90, 30, 30, 70, 70, 10];
    let ys: [i32; 10] = [70, 70, 10, 10, 50, 50, 90, 90, 30, 30];
    let mut a: Vec<Point> = Vec::new();
    let mut b: Vec<Point> = Vec::new();
    let mut i: usize = 0;
    while i < 10
        invariant
            0 <= cx_client <= 65535,
            0 <= cy_client <= 65535,
            i <= 10,
            a@.len() == i,
            b@.len() == i,
            xs@ == seq![10i32, 50, 50, 90, 90, 30, 30, 70, 70, 10],
            ys@ == seq![70i32, 70, 10, 10, 50, 50, 90, 90, 30, 30],
            forall|j: int| 0 <= j < i ==> (#[trigger] a@[j]) == (Point {
                x: (cx_client * figure_grid()[j].0 / 200) as i32,
                y: (cy_client * figure_grid()[j].1 / 100) as i32,
            }),
            forall|j: int| 0 <= j < i ==> (#[trigger] b@[j]) == (Point {
                x: (cx_client * figure_grid()[j].0 / 200 + cx_client / 2) as i32,
                y: (cy_client * figure_grid()[j].1 / 100) as i32,
            }),
        decreases 10 - i,
    {
        let gx = xs[i];
        let gy = ys[i];
        assert(figure_grid()[i as int] == (gx as int, gy as int));
        assert(0 <= cx_client * gx <= 65535 * 90) by (nonlinear_arith)
            requires 0 <= cx_client <= 65535, 0 <= gx <= 90;
        assert(0 <= cy_client * gy <= 65535 * 90) by (nonlinear_arith)
            requires 0 <= cy_client <= 65535, 0 <= gy <= 90;
        let x = cx_client * gx / 200;
        let y = cy_client * gy / 100;
        a.push(Point { x, y });
        b.push(Point { x: x + cx_client / 2, y });
        i = i + 1;
    }
    (a, b)
}

/// The four points of the Bézier demonstration: two ends and two control
/// points.
#[derive(Clone, Copy, Debug)]
pub struct Bezier {
    pub apt: [Point; 4],
}

impl Bezier {
    /// The starting curve for a client area: ends at the left and right
    /// quarter of the middle line, controls at the upper and lower quarter
    /// of the middle column.
    pub fn new(cx_client: i32, cy_client: i32) -> (b: Bezier)
        requires
            0 <= cx_client <= 65535,
            0 <= cy_client <= 65535,
        ensures
            b.apt@ == seq![
                Point { x: (cx_client / 4) as i32, y: (cy_client / 2) as i32 },
                Point { x: (cx_client / 2) as i32, y: (cy_client / 4) as i32 },
                Point { x: (cx_client / 2) as i32, y: (3 * cy_client / 4) as i32 },
                Point { x: (3 * cx_client / 4) as i32, y: (cy_client / 2) as i32 },
            ],
    {
        let b = Bezier {
            apt: [
                Point { x: cx_client / 4, y: cy_client / 2 },
                Point { x: cx_client / 2, y: cy_client / 4 },
                Point { x: cx_client / 2, y: 3 * cy_client / 4 },
                Point { x: 3 * cx_client / 4, y: cy_client / 2 },
            ],
        };
        assert(b.apt@ =~= seq![
            Point { x: (cx_client / 4) as i32, y: (cy_client / 2) as i32 },
            Point { x: (cx_client / 2) as i32, y: (cy_client / 4) as i32 },
            Point { x: (cx_client / 2) as i32, y: (3 * cy_client / 4) as i32 },
            Point { x: (3 * cx_client / 4) as i32, y: (cy_client / 2) as i32 },
        ]);
        b
    }

    /// A mouse message with the button state `flags`: the left button
    /// drags the first control point, the right button the second, both
    /// to the mouse position. Returns whether the curve is to be redrawn.
    pub fn drag(&mut self, flags: usize, lparam: isize) -> (redraw: bool)
        ensures
            redraw == (flags & MK_LBUTTON == MK_LBUTTON || flags & MK_RBUTTON == MK_RBUTTON),
            final(self).apt@ == old(self).apt@
                .update(1, if flags & MK_LBUTTON == MK_LBUTTON {
                    Point { x: low_word(lparam as int) as i32, y: high_word(lparam as int) as i32 }
                } else { old(self).apt@[1] })
                .update(2, if flags & MK_RBUTTON == MK_RBUTTON {
                    Point { x: low_word(lparam as int) as i32, y: high_word(lparam as int) as i32 }
                } else { old(self).apt@[2] }),
    {
        let left = flags & MK_LBUTTON == MK_LBUTTON;
        let right = flags & MK_RBUTTON == MK_RBUTTON;
        if left || right {
            let p = Point { x: loword(lparam), y: hiword(lparam) };
            if left {
                self.apt[1] = p;
            }
            if right {
                self.apt[2] = p;
            }
        }
        assert(self.apt@ =~= old(self).apt@
            .update(1, if left { Point { x: low_word(lparam as int) as i32, y: high_word(lparam as int) as i32 } } else { old(self).apt@[1] })
            .update(2, if right { Point { x: low_word(lparam as int) as i32, y: high_word(lparam as int) as i32 } } else { old(self).apt@[2] }));
        left || right
    }

    /// The two control lines drawn with the curve: from each end to its
    /// control point.
    pub fn control_lines(&self) -> (r: ((Point, Point), (Point, Point)))
        ensures
            r == ((self.apt@[0], self.apt@[1]), (self.apt@[2], self.apt@[3])),
    {
        ((self.apt[0], self.apt[1]), (self.apt[2], self.apt[3]))
    }
}

/// The shapes of the line drawing demonstration.
#[derive(Clone, Copy, Debug)]
pub struct LineDemo {
    /// The rectangle and the ellipse in it.
    pub frame: Rect,
    /// The two diagonals of the client area.
    pub diagonals: [(Point, Point); 2],
    /// The rounded rectangle and its corner size.
    pub round: Rect,
    pub corner: Point,
}

pub fn line_demo(cx: i32, cy: i32) -> (d: LineDemo)
    requires
        0 <= cx <= 65535,
        0 <= cy <= 65535,
    ensures
        d.frame == (Rect { left: (cx / 8) as i32, top: (cy / 8) as i32, right: (7 * cx / 8) as i32, bottom: (7 * cy / 8) as i32 }),
        d.diagonals@ == seq![(Point { x: 0, y: 0 }, Point { x: cx, y: cy }), (Point { x: 0, y: cy }, Point { x: cx, y: 0 })],
        d.round == (Rect { left: (cx / 4) as i32, top: (cy / 4) as i32, right: (3 * cx / 4) as i32, bottom: (3 * cy / 4) as i32 }),
        d.corner == (Point { x: (cx / 4) as i32, y: (cy / 4) as i32 }),
{
    let d = LineDemo {
        frame: Rect { left: cx / 8, top: cy / 8, right: 7 * cx / 8, bottom: 7 * cy / 8 },
        diagonals: [(Point { x: 0, y: 0 }, Point { x: cx, y: cy }), (Point { x: 0, y: cy }, Point { x: cx, y: 0 })],
        round: Rect { left: cx / 4, top: cy / 4, right: 3 * cx / 4, bottom: 3 * cy / 4 },
        corner: Point { x: cx / 4, y: cy / 4 },
    };
    assert(d.diagonals@ =~= seq![(Point { x: 0, y: 0 }, Point { x: cx, y: cy }), (Point { x: 0, y: cy }, Point { x: cx, y: 0 })]);
    d
}

/// The four ellipses whose union, taken in pairs and then exclusively,
/// makes the clover's clipping region: left and right in the middle third
/// of the height, top and bottom in the middle third of the width.
pub fn clover_ellipses(cx: i32, cy: i32) -> (r: [Rect; 4])
    requires
        0 <= cx <= 65535,
        0 <= cy <= 65535,
    ensures
        r@ == seq![
            Rect { left: 0, top: (cy / 3) as i32, right: (cx / 2) as i32, bottom: (2 * cy / 3) as i32 },
            Rect { left: (cx / 2) as i32, top: (cy / 3) as i32, right: cx, bottom: (2 * cy / 3) as i32 },
            Rect { left: (cx / 3) as i32, top: 0, right: (2 * cx / 3) as i32, bottom: (cy / 2) as i32 },
            Rect { left: (cx / 3) as i32, top: (cy / 2) as i32, right: (2 * cx / 3) as i32, bottom: cy },
        ],
{
    let r = [
        Rect { left: 0, top: cy / 3, right: cx / 2, bottom: 2 * cy / 3 },
        Rect { left: cx / 2, top: cy / 3, right: cx, bottom: 2 * cy / 3 },
        Rect { left: cx / 3, top: 0, right: 2 * cx / 3, bottom: cy / 2 },
        Rect { left: cx / 3, top: cy / 2, right: 2 * cx / 3, bottom: cy },
    ];
    assert(r@ =~= seq![
        Rect { left: 0, top: (cy / 3) as i32, right: (cx / 2) as i32, bottom: (2 * cy / 3) as i32 },
        Rect { left: (cx / 2) as i32, top: (cy / 3) as i32, right: cx, bottom: (2 * cy / 3) as i32 },
        Rect { left: (cx / 3) as i32, top: 0, right: (2 * cx / 3) as i32, bottom: (cy / 2) as i32 },
        Rect { left: (cx / 3) as i32, top: (cy / 2) as i32, right: (2 * cx / 3) as i32, bottom: cy },
    ]);
    r
}

/// The places where the icon demonstration draws its icon: a grid of
/// icon-sized cells from the top left, row by row, covering the client
/// area.
pub open spec fn tile_count(extent: int, size: int) -> int {
    if extent <= 0 { 0 } else { (extent + size - 1) / size }
}

pub fn icon_tiles(cx_client: i32, cy_client: i32, cx_icon: i32, cy_icon: i32) -> (r: Vec<Point>)
    requires
        1 <= cx_icon <= 1024,
        1 <= cy_icon <= 1024,
        0 <= cx_client <= 65535,
        0 <= cy_client <= 65535,
    ensures
        r@.len() == tile_count(cx_client as int, cx_icon as int) * tile_count(cy_client as int, cy_icon as int),
        forall|k: int| 0 <= k < r@.len() ==> ({
            let cols = tile_count(cx_client as int, cx_icon as int);
            (#[trigger] r@[k]) == (Point { x: ((k % cols) * cx_icon) as i32, y: ((k / cols) * cy_icon) as i32 })
        }),
{
    let ghost cols = tile_count(cx_client as int, cx_icon as int);
    let ghost rows = tile_count(cy_client as int, cy_icon as int);
    let mut r: Vec<Point> = Vec::new();
    let mut y: i32 = 0;
    let ghost mut row: int = 0;
    proof {
        assert(cols * cx_icon >= cx_client && (cols - 1) * cx_icon < cx_client || cx_client <= 0) by (nonlinear_arith)
            requires cols == tile_count(cx_client as int, cx_icon as int), cx_icon >= 1, cx_client >= 0;
        assert(rows * cy_icon >= cy_client && (rows - 1) * cy_icon < cy_client || cy_client <= 0) by (nonlinear_arith)
            requires rows == tile_count(cy_client as int, cy_icon as int), cy_icon >= 1, cy_client >= 0;
        assert(cols >= 0 && rows >= 0) by (nonlinear_arith)
            requires cols == tile_count(cx_client as int, cx_icon as int), rows == tile_count(cy_client as int, cy_icon as int),
                cx_icon >= 1, cy_icon >= 1, cx_client >= 0, cy_client >= 0;
    }
    while y < cy_client
        invariant
            1 <= cx_icon <= 1024,
            1 <= cy_icon <= 1024,
            0 <= cx_client <= 65535,
            0 <= cy_client <= 65535,
            cols == tile_count(cx_client as int, cx_icon as int),
            rows == tile_count(cy_client as int, cy_icon as int),
            cols >= 0,
            cx_client > 0 ==> cols * cx_icon >= cx_client && (cols - 1) * cx_icon < cx_client,
            cx_client <= 0 ==> cols == 0,
            cy_client > 0 ==> rows * cy_icon >= cy_client && (rows - 1) * cy_icon < cy_client,
            cy_client <= 0 ==> rows == 0,
            0 <= row,
            y == row * cy_icon,
            y < cy_client ==> row < rows,
            row <= rows,
            r@.len() == row * cols,
            forall|k: int| 0 <= k < r@.len() ==>
                (#[trigger] r@[k]) == (Point { x: ((k % cols) * cx_icon) as i32, y: ((k / cols) * cy_icon) as i32 }),
        decreases cy_client + cy_icon - y,
    {
        let mut x: i32 = 0;
        let ghost mut col: int = 0;
        let ghost base = r@.len();
        while x < cx_client
            invariant
                1 <= cx_icon <= 1024,
                0 <= cx_client <= 65535,
                cols == tile_count(cx_client as int, cx_icon as int),
                cols >= 0,
                cx_client > 0 ==> cols * cx_icon >= cx_client && (cols - 1) * cx_icon < cx_client,
                cx_client <= 0 ==> cols == 0,
                0 <= col,
                x == col * cx_icon,
                x < cx_client ==> col < cols,
                col <= cols,
                0 <= y <= 65535,
                base == row * cols,
                0 <= row,
                r@.len() == base + col,
                forall|k: int| 0 <= k < base ==>
                    (#[trigger] r@[k]) == (Point { x: ((k % cols) * cx_icon) as i32, y: ((k / cols) * cy_icon) as i32 }),
                forall|k: int| base <= k < r@.len() ==>
                    (#[trigger] r@[k]) == (Point { x: ((k - base) * cx_icon) as i32, y }),
            decreases cx_client + cx_icon - x,
        {
            r.push(Point { x, y });
            x = x + cx_icon;
            proof {
                col = col + 1;
                assert(x == col * cx_icon) by (nonlinear_arith) requires x == (col - 1) * cx_icon + cx_icon;
                if x < cx_client {
                    assert(col < cols) by (nonlinear_arith)
                        requires col * cx_icon < cx_client, cols * cx_icon >= cx_client, cx_icon >= 1;
                }
            }
        }
        proof {
            if cx_client > 0 {
                assert(col == cols) by (nonlinear_arith)
                    requires col * cx_icon >= cx_client, (cols - 1) * cx_icon < cx_client, col <= cols, cx_icon >= 1;
            } else {
                assert(col == 0);
            }
            assert forall|k: int| base <= k < r@.len() implies
                (#[trigger] r@[k]) == (Point { x: ((k % cols) * cx_icon) as i32, y: ((k / cols) * cy_icon) as i32 }) by {
                assert(k % cols == k - base && k / cols == row) by (nonlinear_arith)
                    requires base == row * cols, base <= k < base + cols, cols > 0;
                assert(y == (k / cols) * cy_icon);
            }
        }
        y = y + cy_icon;
        proof {
            row = row + 1;
            assert(y == row * cy_icon) by (nonlinear_arith) requires y == (row - 1) * cy_icon + cy_icon;
            assert(r@.len() == row * cols) by (nonlinear_arith) requires r@.len() == (row - 1) * cols + cols;
            if y < cy_client {
                assert(row < rows) by (nonlinear_arith)
                    requires row * cy_icon < cy_client, rows * cy_icon >= cy_client, cy_icon >= 1;
            }
        }
    }
    proof {
        if cy_client > 0 {
            assert(row == rows) by (nonlinear_arith)
                requires row * cy_icon >= cy_client, (rows - 1) * cy_icon < cy_client, row <= rows, cy_icon >= 1;
        } else {
            assert(row == 0);
        }
        assert(r@.len() == cols * rows) by (nonlinear_arith) requires r@.len() == row * cols, row == rows;
    }
    r
}

/// The size of the color window: room for twelve average characters across
/// and two lines down, inside the borders and below the caption.
pub fn color_window_size(cx_border: i32, cy_border: i32, cy_caption: i32, ave_char_width: i32, height: i32) -> (r: (i32, i32))
    requires
        0 <= cx_border <= 10000,
        0 <= cy_border <= 10000,
        0 <= cy_caption <= 10000,
        0 <= ave_char_width <= 10000,
        0 <= height <= 10000,
    ensures
        r == ((2 * cx_border + 12 * ave_char_width) as i32, (2 * cy_border + cy_caption + 2 * height) as i32),
{
    (2 * cx_border + 12 * ave_char_width, 2 * cy_border + cy_caption + 2 * height)
}

/// The color under the cursor is shown again only when it changed; the
/// last color shown is then the new one.
pub fn color_update(cr: u32, cr_last: u32) -> (r: (bool, u32))
    ensures
        r == (cr != cr_last, cr),
{
    (cr != cr_last, cr)
}

/// Dragging with the left button moves the first control point, with the
/// right button the second; the ends of the curve never move.
pub proof fn law_drag_keeps_ends(before: Seq<Point>, flags: usize, p: Point)
    requires
        before.len() == 4,
    ensures
        ({
            let after = before
                .update(1, if flags & MK_LBUTTON == MK_LBUTTON { p } else { before[1] })
                .update(2, if flags & MK_RBUTTON == MK_RBUTTON { p } else { before[2] });
            &&& after.len() == 4
            &&& after[0] == before[0]
            &&& after[3] == before[3]
        }),
{
}

} // verus!
