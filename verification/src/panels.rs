//! Child-window layouts: the button gallery and its message log, the
//! three color scroll bars, and the file viewer's list and paths.
use vstd::prelude::*;
use crate::geom::{Point, Rect, Placement};
use crate::words::{rgb, color_value};

verus! {

pub const BUTTON_COUNT: usize = 10;
pub const BS_PUSHBUTTON: i32 = 0;
pub const BS_DEFPUSHBUTTON: i32 = 1;
pub const BS_CHECKBOX: i32 = 2;
pub const BS_AUTOCHECKBOX: i32 = 3;
pub const BS_RADIOBUTTON: i32 = 4;
pub const BS_3STATE: i32 = 5;
pub const BS_AUTO3STATE: i32 = 6;
pub const BS_GROUPBOX: i32 = 7;
pub const BS_AUTORADIOBUTTON: i32 = 9;
pub const BS_OWNERDRAW: i32 = 11;

/// The buttons of the gallery: style and caption, in order.
pub open spec fn gallery() -> Seq<(i32, &'static str)> {
    seq![
        (BS_PUSHBUTTON, "PUSHBUTTON"),
        (BS_DEFPUSHBUTTON, "DEFPUSHBUTTON"),
        (BS_CHECKBOX, "CHECKBOX"),
        (BS_AUTOCHECKBOX, "AUTOCHECKBOX"),
        (BS_RADIOBUTTON, "RADIOBUTTON"),
        (BS_3STATE, "3TATE"),
        (BS_AUTO3STATE, "AUTO3STATE"),
        (BS_GROUPBOX, "GROUPBOX"),
        (BS_AUTORADIOBUTTON, "AUTORADIOBUTTON"),
        (BS_OWNERDRAW, "OWNERDRAW"),
    ]
}

pub fn gallery_button(i: usize) -> (b: (i32, &'static str))
    requires
        i < BUTTON_COUNT,
    ensures
        b == gallery()[i as int],
{
    if i == 0 { (BS_PUSHBUTTON, "PUSHBUTTON") }
    else if i == 1 { (BS_DEFPUSHBUTTON, "DEFPUSHBUTTON") }
    else if i == 2 { (BS_CHECKBOX, "CHECKBOX") }
    else if i == 3 { (BS_AUTOCHECKBOX, "AUTOCHECKBOX") }
    else if i == 4 { (BS_RADIOBUTTON, "RADIOBUTTON") }
    else if i == 5 { (BS_3STATE, "3TATE") }
    else if i == 6 { (BS_AUTO3STATE, "AUTO3STATE") }
    else if i == 7 { (BS_GROUPBOX, "GROUPBOX") }
    else if i == 8 { (BS_AUTORADIOBUTTON, "AUTORADIOBUTTON") }
    else { (BS_OWNERDRAW, "OWNERDRAW") }
}

pub open spec fn units_ok(cx_char: int, cy_char: int) -> bool {
    0 <= cx_char <= 65535 && 0 <= cy_char <= 65535
}

/// Button `i` of the gallery: one character in, on every other line from
/// the second, twenty characters wide and seven quarters of a line high.
pub fn gallery_placement(i: usize, cx_char: i32, cy_char: i32) -> (p: Placement)
    requires
        i < BUTTON_COUNT,
        units_ok(cx_char as int, cy_char as int),
    ensures
        p == (Placement { x: cx_char, y: (cy_char * (1 + 2 * i)) as i32, width: (20 * cx_char) as i32, height: (7 * cy_char / 4) as i32 }),
{
    let k = 1 + 2 * (i as i32);
    assert(0 <= cy_char * k <= 65535 * 19) by (nonlinear_arith) requires units_ok(cx_char as int, cy_char as int), 1 <= k <= 19;
    Placement { x: cx_char, y: cy_char * k, width: 20 * cx_char, height: 7 * cy_char / 4 }
}

/// The part of the window where button messages are logged: from column
/// 24 and the third line to the bottom right corner.
pub fn log_rect(cx_char: i32, cy_char: i32, cx_client: i32, cy_client: i32) -> (r: Rect)
    requires
        units_ok(cx_char as int, cy_char as int),
    ensures
        r == (Rect { left: (24 * cx_char) as i32, top: (2 * cy_char) as i32, right: cx_client, bottom: cy_client }),
{
    Rect { left: 24 * cx_char, top: 2 * cy_char, right: cx_client, bottom: cy_client }
}

/// Where a new log line is written: column 24, on the last whole line
/// above the bottom of the log.
pub fn log_line_position(cx_char: i32, cy_char: i32, bottom: i32) -> (p: Point)
    requires
        1 <= cy_char <= 65535,
        0 <= cx_char <= 65535,
        0 <= bottom <= 65535,
    ensures
        p == (Point { x: (24 * cx_char) as i32, y: (cy_char * (bottom / cy_char - 1)) as i32 }),
{
    let q = bottom / cy_char;
    assert(0 <= q <= bottom) by (nonlinear_arith) requires q == bottom / cy_char, cy_char >= 1, bottom >= 0;
    assert(-65535 <= cy_char * (q - 1) <= cy_char * q) by (nonlinear_arith) requires 1 <= cy_char <= 65535, q >= 0;
    assert(cy_char * q <= bottom) by (nonlinear_arith) requires q == bottom / cy_char, cy_char >= 1, bottom >= 0;
    Point { x: 24 * cx_char, y: cy_char * (q - 1) }
}

/// The primary colors of the three scroll bars: red, green, blue.
pub open spec fn primary(i: int) -> u32 {
    if i == 0 { 0x0000_00FF } else if i == 1 { 0x0000_FF00 } else { 0x00FF_0000 }
}

pub fn primary_color(i: usize) -> (c: u32)
    requires
        i < 3,
    ensures
        c == primary(i as int),
{
    if i == 0 { rgb(255, 0, 0) } else if i == 1 { rgb(0, 255, 0) } else { rgb(0, 0, 255) }
}

/// The controls of one color: its scroll bar, its label above and its
/// value below.
#[derive(Clone, Copy, PartialEq, Eq, Structural, Debug)]
pub struct ColorControls {
    pub scroll: Placement,
    pub label: Placement,
    pub value: Placement,
}

/// The scroll bars stand in the left half, in the odd fourteenths of the
/// width; labels and values are a seventh wide, from the `4i + 1`th
/// twenty-eighth.
pub fn color_controls(i: i32, cx_client: i32, cy_client: i32, cy_char: i32) -> (c: ColorControls)
    requires
        0 <= i < 3,
        0 <= cx_client <= 65535,
        0 <= cy_client <= 65535,
        0 <= cy_char <= 65535,
    ensures
        c == (ColorControls {
            scroll: Placement { x: ((2 * i + 1) * cx_client / 14) as i32, y: (2 * cy_char) as i32,
                width: (cx_client / 14) as i32, height: (cy_client - 4 * cy_char) as i32 },
            label: Placement { x: ((4 * i + 1) * cx_client / 28) as i32, y: (cy_char / 2) as i32,
                width: (cx_client / 7) as i32, height: cy_char },
            value: Placement { x: ((4 * i + 1) * cx_client / 28) as i32, y: (cy_client - 3 * cy_char / 2) as i32,
                width: (cx_client / 7) as i32, height: cy_char },
        }),
{
    assert(0 <= (2 * i + 1) * cx_client <= 5 * 65535) by (nonlinear_arith) requires 0 <= i < 3, 0 <= cx_client <= 65535;
    assert(0 <= (4 * i + 1) * cx_client <= 9 * 65535) by (nonlinear_arith) requires 0 <= i < 3, 0 <= cx_client <= 65535;
    ColorControls {
        scroll: Placement { x: (2 * i + 1) * cx_client / 14, y: 2 * cy_char, width: cx_client / 14, height: cy_client - 4 * cy_char },
        label: Placement { x: (4 * i + 1) * cx_client / 28, y: cy_char / 2, width: cx_client / 7, height: cy_char },
        value: Placement { x: (4 * i + 1) * cx_client / 28, y: cy_client - 3 * cy_char / 2, width: cx_client / 7, height: cy_char },
    }
}

/// The color shown is the right half of the client area; the left half
/// holds the controls.
pub fn color_areas(cx_client: i32, cy_client: i32) -> (r: (Rect, Placement))
    requires
        0 <= cx_client <= 65535,
        0 <= cy_client <= 65535,
    ensures
        r == (Rect { left: (cx_client / 2) as i32, top: 0, right: cx_client, bottom: cy_client },
            Placement { x: 0, y: 0, width: (cx_client / 2) as i32, height: cy_client }),
{
    (Rect { left: cx_client / 2, top: 0, right: cx_client, bottom: cy_client },
        Placement { x: 0, y: 0, width: cx_client / 2, height: cy_client })
}

/// The labels and values (ids 3 to 8) are painted in their color's
/// primary; other static controls are not the window's to paint.
pub fn static_color(id: usize) -> (c: Option<u32>)
    ensures
        c == (if 3 <= id <= 8 { Some(primary((id % 3) as int)) } else { None::<u32> }),
{
    if 3 <= id && id <= 8 { Some(primary_color(id % 3)) } else { None }
}

/// The background made of the three values.
pub fn mixed_color(colors: [i32; 3]) -> (c: u32)
    ensures
        c == color_value(colors@[0] as int, colors@[1] as int, colors@[2] as int),
{
    rgb(colors[0], colors[1], colors[2])
}

pub const FIRST_COLOR_SCROLL: i32 = 10;

/// In the color dialog, the scroll bars have the ids 10 to 12: a scroll
/// bar's color is its place among them, and its value is shown in the
/// control three ids further on.
pub fn color_dialog_ids(ctrl_id: i32) -> (r: (usize, i32))
    requires
        FIRST_COLOR_SCROLL <= ctrl_id < FIRST_COLOR_SCROLL + 3,
    ensures
        r == ((ctrl_id - FIRST_COLOR_SCROLL) as usize, (ctrl_id + 3) as i32),
{
    ((ctrl_id - FIRST_COLOR_SCROLL) as usize, ctrl_id + 3)
}

/// The file list and the path line of the file viewer, and the top left
/// of the area where a file's text is shown.
pub fn viewer_layout(cx_char: i32, cy_char: i32, cx_vscroll: i32, max_path: i32) -> (r: (Placement, Placement, Point))
    requires
        units_ok(cx_char as int, cy_char as int),
        0 <= cx_vscroll <= 65535,
        0 <= max_path <= 1024,
    ensures
        r == (Placement { x: cx_char, y: (cy_char * 3) as i32, width: (cx_char * 13 + cx_vscroll) as i32, height: (cy_char * 10) as i32 },
            Placement { x: cx_char, y: cy_char, width: (cx_char * max_path) as i32, height: cy_char },
            Point { x: (20 * cx_char) as i32, y: (3 * cy_char) as i32 }),
{
    assert(0 <= cx_char * max_path <= 65535 * 1024) by (nonlinear_arith) requires units_ok(cx_char as int, cy_char as int), 0 <= max_path <= 1024;
    (Placement { x: cx_char, y: cy_char * 3, width: cx_char * 13 + cx_vscroll, height: cy_char * 10 },
        Placement { x: cx_char, y: cy_char, width: cx_char * max_path, height: cy_char },
        Point { x: 20 * cx_char, y: 3 * cy_char })
}

pub const BACKSLASH: u16 = 0x5C;
pub const COLON: u16 = 0x3A;

/// The full path of a file in a directory: the directory, a backslash
/// unless it already ends in one, and the file's name.
pub open spec fn spec_join_path(dir: Seq<u16>, file: Seq<u16>) -> Seq<u16> {
    if dir.last() == BACKSLASH { dir + file } else { dir.push(BACKSLASH) + file }
}

pub fn join_path(dir: &[u16], file: &[u16]) -> (p: Vec<u16>)
    requires
        dir@.len() >= 1,
    ensures
        p@ == spec_join_path(dir@, file@),
{
    let mut p: Vec<u16> = Vec::new();
    let mut i: usize = 0;
    while i < dir.len()
        invariant
            i <= dir@.len(),
            p@ == dir@.subrange(0, i as int),
        decreases dir@.len() - i,
    {
        p.push(dir[i]);
        i = i + 1;
        assert(p@ =~= dir@.subrange(0, i as int));
    }
    assert(p@ =~= dir@);
    if dir[dir.len() - 1] != BACKSLASH {
        p.push(BACKSLASH);
    }
    let ghost head = p@;
    let mut j: usize = 0;
    while j < file.len()
        invariant
            j <= file@.len(),
            p@ == head + file@.subrange(0, j as int),
        decreases file@.len() - j,
    {
        p.push(file[j]);
        j = j + 1;
        assert(p@ =~= head + file@.subrange(0, j as int));
    }
    assert(file@.subrange(0, file@.len() as int) =~= file@);
    p
}

/// The directories a list entry names, tried in turn: a directory entry
/// is shown as `[name]`, so the first try is the text between the first
/// character and the last; a drive is shown as `[-c-]`, so the second try
/// is the third character and a colon (none when the entry is too short).
/// The entry is the text of a list item, so it holds no NUL.
pub open spec fn spec_dir_candidates(entry: Seq<u16>) -> (Seq<u16>, Seq<u16>) {
    let n = entry.len();
    (
        if n >= 2 { entry.subrange(1, n - 1) } else { seq![] },
        if n >= 4 { seq![entry[2], COLON] } else { seq![] },
    )
}

pub fn dir_candidates(entry: &[u16]) -> (c: (Vec<u16>, Vec<u16>))
    requires
        entry@.len() >= 1,
        forall|i: int| 0 <= i < entry@.len() ==> entry@[i] != 0,
    ensures
        c.0@ == spec_dir_candidates(entry@).0,
        c.1@ == spec_dir_candidates(entry@).1,
{
    let n = entry.len();
    let mut first: Vec<u16> = Vec::new();
    if n >= 2 {
        let mut i: usize = 1;
        while i < n - 1
            invariant
                n == entry@.len(),
                n >= 2,
                1 <= i <= n - 1,
                first@ == entry@.subrange(1, i as int),
            decreases n - 1 - i,
        {
            first.push(entry[i]);
            i = i + 1;
            assert(first@ =~= entry@.subrange(1, i as int));
        }
    }
    let mut second: Vec<u16> = Vec::new();
    if n >= 4 {
        second.push(entry[2]);
        second.push(COLON);
    }
    assert(second@ =~= spec_dir_candidates(entry@).1);
    assert(first@ =~= spec_dir_candidates(entry@).0);
    (first, second)
}

} // verus!
