//! Fonts: the logical font fields made from the easy-font attributes and
//! face name, and the character grid of the stock font viewer.
use vstd::prelude::*;
use crate::arith::{abs, trunc_div, div_i32};
use crate::geom::Point;
use crate::wide::utf16;

verus! {

pub const EZ_ATTR_BOLD: i32 = 1;
pub const EZ_ATTR_ITALIC: i32 = 2;
pub const EZ_ATTR_UNDERLINE: i32 = 4;
pub const EZ_ATTR_STRIKEOUT: i32 = 8;
pub const FW_BOLD: i32 = 700;
pub const LF_FACESIZE: usize = 32;
pub const CF_SCREENFONTS: u32 = 0x1;
pub const CF_INITTOLOGFONTSTRUCT: u32 = 0x40;
pub const CF_EFFECTS: u32 = 0x100;

/// The style fields of a logical font: weight and the italic, underline
/// and strike-out flags.
#[derive(Clone, Copy, PartialEq, Eq, Structural, Debug)]
pub struct FontStyle {
    pub weight: i32,
    pub italic: u8,
    pub underline: u8,
    pub strike_out: u8,
}

/// Bold gives the bold weight (otherwise the default weight, 0); each other
/// attribute bit sets its flag.
pub fn font_style(attr: i32) -> (s: FontStyle)
    ensures
        s == (FontStyle {
            weight: if attr & EZ_ATTR_BOLD == EZ_ATTR_BOLD { FW_BOLD } else { 0 },
            italic: if attr & EZ_ATTR_ITALIC == EZ_ATTR_ITALIC { 1 } else { 0 },
            underline: if attr & EZ_ATTR_UNDERLINE == EZ_ATTR_UNDERLINE { 1 } else { 0 },
            strike_out: if attr & EZ_ATTR_STRIKEOUT == EZ_ATTR_STRIKEOUT { 1 } else { 0 },
        }),
{
    FontStyle {
        weight: if attr & EZ_ATTR_BOLD == EZ_ATTR_BOLD { FW_BOLD } else { 0 },
        italic: if attr & EZ_ATTR_ITALIC == EZ_ATTR_ITALIC { 1 } else { 0 },
        underline: if attr & EZ_ATTR_UNDERLINE == EZ_ATTR_UNDERLINE { 1 } else { 0 },
        strike_out: if attr & EZ_ATTR_STRIKEOUT == EZ_ATTR_STRIKEOUT { 1 } else { 0 },
    }
}

/// The face name field: the name's UTF-16 units filled up with zeros to
/// the field's 32 units; a name longer than the field leaves it all zeros.
pub open spec fn spec_face_field(name: Seq<char>) -> Seq<u16> {
    let u = utf16(name);
    if u.len() <= 32 {
        u + Seq::new((32 - u.len()) as nat, |i: int| 0u16)
    } else {
        Seq::new(32, |i: int| 0u16)
    }
}

pub fn face_field(name: &str) -> (f: Vec<u16>)
    ensures
        f@ == spec_face_field(name@),
        f@.len() == 32,
{
    let mut w = crate::wide::to_wide_chars(name);
    w.pop();
    if w.len() <= 32 {
        let ghost u = w@;
        while w.len() < 32
            invariant
                u.len() <= 32,
                w@.len() <= 32,
                w@.len() >= u.len(),
                w@ == u + Seq::new((w@.len() - u.len()) as nat, |i: int| 0u16),
            decreases 32 - w@.len(),
        {
            w.push(0);
            assert(w@ =~= u + Seq::new((w@.len() - u.len()) as nat, |i: int| 0u16));
        }
        w
    } else {
        let mut z: Vec<u16> = Vec::new();
        while z.len() < 32
            invariant
                z@.len() <= 32,
                z@ == Seq::new(z@.len(), |i: int| 0u16),
            decreases 32 - z@.len(),
        {
            z.push(0);
            assert(z@ =~= Seq::new(z@.len(), |i: int| 0u16));
        }
        z
    }
}

/// The width of a font made for a given width in points: the average
/// character width of the font made for the height alone, scaled by the
/// ratio of the requested width to the height (in device units).
pub fn font_width(ave_char_width: i32, x: i32, y: i32) -> (w: i32)
    requires
        y != 0,
        x != i32::MIN,
        y != i32::MIN,
        i32::MIN <= ave_char_width * abs(x as int) <= i32::MAX,
    ensures
        w == trunc_div(ave_char_width * abs(x as int), abs(y as int)),
{
    let ax: i32 = if x < 0 { -x } else { x };
    let ay: i32 = if y < 0 { -y } else { y };
    let p = ave_char_width * ax;
    div_i32(p, ay)
}

/// The flags of the font dialog: start from the logical font, list screen
/// fonts, offer effects.
pub fn choose_font_flags() -> (f: u32)
    ensures
        f == CF_INITTOLOGFONTSTRUCT | CF_SCREENFONTS | CF_EFFECTS,
{
    CF_INITTOLOGFONTSTRUCT | CF_SCREENFONTS | CF_EFFECTS
}

pub const OEM_FIXED_FONT: i32 = 10;
pub const ANSI_FIXED_FONT: i32 = 11;
pub const ANSI_VAR_FONT: i32 = 12;
pub const SYSTEM_FONT: i32 = 13;
pub const DEVICE_DEFAULT_FONT: i32 = 14;
pub const SYSTEM_FIXED_FONT: i32 = 16;
pub const DEFAULT_GUI_FONT: i32 = 17;
pub const STOCK_FONT_COUNT: usize = 7;

/// The stock fonts the viewer pages through, with their names.
pub open spec fn stock_fonts() -> Seq<(i32, &'static str)> {
    seq![
        (OEM_FIXED_FONT, "OEM_FIXED_FONT"),
        (ANSI_FIXED_FONT, "ANSI_FIXED_FONT"),
        (ANSI_VAR_FONT, "ANSI_VAR_FONT"),
        (SYSTEM_FONT, "SYSTEM_FONT"),
        (DEVICE_DEFAULT_FONT, "DEVICE_DEFAULT_FONT"),
        (SYSTEM_FIXED_FONT, "SYSTEM_FIXED_FONT"),
        (DEFAULT_GUI_FONT, "DEFAULT_GUI_FONT"),
    ]
}

pub fn stock_font(i: usize) -> (f: (i32, &'static str))
    requires
        i < STOCK_FONT_COUNT,
    ensures
        f == stock_fonts()[i as int],
{
    if i == 0 { (OEM_FIXED_FONT, "OEM_FIXED_FONT") }
    else if i == 1 { (ANSI_FIXED_FONT, "ANSI_FIXED_FONT") }
    else if i == 2 { (ANSI_VAR_FONT, "ANSI_VAR_FONT") }
    else if i == 3 { (SYSTEM_FONT, "SYSTEM_FONT") }
    else if i == 4 { (DEVICE_DEFAULT_FONT, "DEVICE_DEFAULT_FONT") }
    else if i == 5 { (SYSTEM_FIXED_FONT, "SYSTEM_FIXED_FONT") }
    else { (DEFAULT_GUI_FONT, "DEFAULT_GUI_FONT") }
}

/// The size of a cell of the character grid: three average or two widest
/// characters across, whichever is more; the height and three pixels down.
pub fn grid_cell(ave_char_width: i32, max_char_width: i32, height: i32) -> (c: (i32, i32))
    requires
        0 <= ave_char_width <= 0x100_0000,
        0 <= max_char_width <= 0x100_0000,
        0 <= height <= 0x100_0000,
    ensures
        c == ((if 3 * ave_char_width >= 2 * max_char_width { 3 * ave_char_width } else { 2 * max_char_width }) as i32,
            (height + 3) as i32),
{
    let a = 3 * ave_char_width;
    let b = 2 * max_char_width;
    (if a >= b { a } else { b }, height + 3)
}

pub open spec fn grid_ok(cx: int, cy: int) -> bool {
    0 <= cx <= 0x10_0000 && 0 <= cy <= 0x10_0000
}

/// The grid's lines: for each `i` below 17, a vertical line at column
/// `i + 2` from row 2 to row 19 and a horizontal line at row `i + 3` from
/// column 1 to column 18.
pub fn grid_lines(cx: i32, cy: i32) -> (lines: Vec<(Point, Point)>)
    requires
        grid_ok(cx as int, cy as int),
    ensures
        lines@.len() == 34,
        forall|i: int| 0 <= i < 17 ==> #[trigger] lines@[2 * i] == (Point { x: ((i + 2) * cx) as i32, y: (2 * cy) as i32 },
            Point { x: ((i + 2) * cx) as i32, y: (19 * cy) as i32 }),
        forall|i: int| 0 <= i < 17 ==> #[trigger] lines@[2 * i + 1] == (Point { x: cx, y: ((i + 3) * cy) as i32 },
            Point { x: (18 * cx) as i32, y: ((i + 3) * cy) as i32 }),
{
    let mut lines: Vec<(Point, Point)> = Vec::new();
    let mut i: i32 = 0;
    while i < 17
        invariant
            grid_ok(cx as int, cy as int),
            0 <= i <= 17,
            lines@.len() == 2 * i,
            forall|j: int| 0 <= j < i ==> #[trigger] lines@[2 * j] == (Point { x: ((j + 2) * cx) as i32, y: (2 * cy) as i32 },
                Point { x: ((j + 2) * cx) as i32, y: (19 * cy) as i32 }),
            forall|j: int| 0 <= j < i ==> #[trigger] lines@[2 * j + 1] == (Point { x: cx, y: ((j + 3) * cy) as i32 },
                Point { x: (18 * cx) as i32, y: ((j + 3) * cy) as i32 }),
        decreases 17 - i,
    {
        proof {
            assert(0 <= (i + 2) * cx <= 19 * 0x10_0000) by (nonlinear_arith)
                requires 0 <= i < 17, 0 <= cx <= 0x10_0000;
            assert(0 <= (i + 3) * cy <= 20 * 0x10_0000) by (nonlinear_arith)
                requires 0 <= i < 17, 0 <= cy <= 0x10_0000;
        }
        let vx = (i + 2) * cx;
        lines.push((Point { x: vx, y: 2 * cy }, Point { x: vx, y: 19 * cy }));
        let hy = (i + 3) * cy;
        lines.push((Point { x: cx, y: hy }, Point { x: 18 * cx, y: hy }));
        proof {
            assert(lines@[2 * i as int] == (Point { x: ((i + 2) * cx) as i32, y: (2 * cy) as i32 },
                Point { x: ((i + 2) * cx) as i32, y: (19 * cy) as i32 }));
            assert(lines@[2 * i as int + 1] == (Point { x: cx, y: ((i + 3) * cy) as i32 },
                Point { x: (18 * cx) as i32, y: ((i + 3) * cy) as i32 }));
        }
        i = i + 1;
    }
    lines
}

/// Where the heading of column `i` is centered, and where the heading of
/// row `i` is.
pub fn heading_positions(i: i32, cx: i32, cy: i32) -> (p: (Point, Point))
    requires
        0 <= i < 16,
        grid_ok(cx as int, cy as int),
    ensures
        p == (Point { x: ((2 * i + 5) * cx / 2) as i32, y: (2 * cy + 2) as i32 },
            Point { x: (3 * cx / 2) as i32, y: ((i + 3) * cy + 2) as i32 }),
{
    proof {
        assert(0 <= (2 * i + 5) * cx <= 36 * 0x10_0000) by (nonlinear_arith)
            requires 0 <= i < 16, 0 <= cx <= 0x10_0000;
        assert(0 <= (i + 3) * cy <= 19 * 0x10_0000) by (nonlinear_arith)
            requires 0 <= i < 16, 0 <= cy <= 0x10_0000;
    }
    (Point { x: (2 * i + 5) * cx / 2, y: 2 * cy + 2 }, Point { x: 3 * cx / 2, y: (i + 3) * cy + 2 })
}

/// The character shown in column `x`, row `y`, and where it is centered.
pub open spec fn cell_code(x: int, y: int) -> int {
    16 * x + y
}

pub fn char_cell(x: i32, y: i32, cx: i32, cy: i32) -> (c: (Point, u16))
    requires
        0 <= x < 16,
        0 <= y < 16,
        grid_ok(cx as int, cy as int),
    ensures
        c == (Point { x: ((2 * x + 5) * cx / 2) as i32, y: ((y + 3) * cy + 2) as i32 }, cell_code(x as int, y as int) as u16),
{
    proof {
        assert(0 <= (2 * x + 5) * cx <= 36 * 0x10_0000) by (nonlinear_arith)
            requires 0 <= x < 16, 0 <= cx <= 0x10_0000;
        assert(0 <= (y + 3) * cy <= 19 * 0x10_0000) by (nonlinear_arith)
            requires 0 <= y < 16, 0 <= cy <= 0x10_0000;
    }
    (Point { x: (2 * x + 5) * cx / 2, y: (y + 3) * cy + 2 }, (16 * x + y) as u16)
}

/// Every character code below 256 is shown in exactly one cell of the
/// grid.
pub proof fn law_each_code_once(code: int)
    requires
        0 <= code < 256,
    ensures
        exists|x: int, y: int| 0 <= x < 16 && 0 <= y < 16 && cell_code(x, y) == code,
        forall|x1: int, y1: int, x2: int, y2: int|
            0 <= x1 < 16 && 0 <= y1 < 16 && 0 <= x2 < 16 && 0 <= y2 < 16
                && #[trigger] cell_code(x1, y1) == code && #[trigger] cell_code(x2, y2) == code
                ==> x1 == x2 && y1 == y2,
{
    assert(cell_code(code / 16, code % 16) == code);
}

} // verus!
