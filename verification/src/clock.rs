//! The two clocks: the hands and tick marks of the analog clock, and the
//! seven-segment digits of the digital clock.
use vstd::prelude::*;
use crate::geom::{Point, Rect};

verus! {

/// Where a hand points, in degrees clockwise from twelve: the hour hand
/// moves on by half a degree a minute.
pub open spec fn spec_hand_angles(hour: int, minute: int, second: int) -> (int, int, int) {
    ((hour * 30) % 360 + minute / 2, minute * 6, second * 6)
}

/// The angles of the hour, minute and second hands.
pub fn hand_angles(hour: u16, minute: u16, second: u16) -> (r: [i32; 3])
    ensures
        r@ == seq![
            spec_hand_angles(hour as int, minute as int, second as int).0 as i32,
            spec_hand_angles(hour as int, minute as int, second as int).1 as i32,
            spec_hand_angles(hour as int, minute as int, second as int).2 as i32,
        ],
{
    let h = hour as i32;
    let m = minute as i32;
    let s = second as i32;
    let r = [(h * 30) % 360 + m / 2, m * 6, s * 6];
    assert(r@ =~= seq![
        spec_hand_angles(hour as int, minute as int, second as int).0 as i32,
        spec_hand_angles(hour as int, minute as int, second as int).1 as i32,
        spec_hand_angles(hour as int, minute as int, second as int).2 as i32,
    ]);
    r
}

/// Whether the hour and minute hands must be drawn again: the hour or the
/// minute changed. The second hand is drawn again every second.
pub fn hands_changed(prev_hour: u16, prev_minute: u16, hour: u16, minute: u16) -> (r: bool)
    ensures
        r == (prev_hour != hour || prev_minute != minute),
{
    prev_hour != hour || prev_minute != minute
}

/// The first hand to draw: the hour hand when they all change, else the
/// second hand only.
pub fn first_hand(change: bool) -> (r: usize)
    ensures
        r == (if change { 0usize } else { 2usize }),
{
    if change { 0 } else { 2 }
}

/// The outlines of the hour, minute and second hands, pointing at twelve,
/// in units of a thousandth of the clock's radius.
pub fn hand_shape(hand: usize) -> (r: [Point; 5])
    requires
        hand < 3,
    ensures
        hand == 0 ==> r@ == seq![Point { x: 0, y: -150i32 }, Point { x: 100, y: 0 }, Point { x: 0, y: 600 },
            Point { x: -100i32, y: 0 }, Point { x: 0, y: -150i32 }],
        hand == 1 ==> r@ == seq![Point { x: 0, y: -200i32 }, Point { x: 50, y: 0 }, Point { x: 0, y: 800 },
            Point { x: -50i32, y: 0 }, Point { x: 0, y: -200i32 }],
        hand == 2 ==> r@ == seq![Point { x: 0, y: 0 }, Point { x: 0, y: 0 }, Point { x: 0, y: 0 },
            Point { x: 0, y: 0 }, Point { x: 0, y: 800 }],
{
    let r = if hand == 0 {
        [Point { x: 0, y: -150i32 }, Point { x: 100, y: 0 }, Point { x: 0, y: 600 }, Point { x: -100i32, y: 0 }, Point { x: 0, y: -150i32 }]
    } else if hand == 1 {
        [Point { x: 0, y: -200i32 }, Point { x: 50, y: 0 }, Point { x: 0, y: 800 }, Point { x: -50i32, y: 0 }, Point { x: 0, y: -200i32 }]
    } else {
        [Point { x: 0, y: 0 }, Point { x: 0, y: 0 }, Point { x: 0, y: 0 }, Point { x: 0, y: 0 }, Point { x: 0, y: 800 }]
    };
    assert(hand == 0 ==> r@ =~= seq![Point { x: 0, y: -150i32 }, Point { x: 100, y: 0 }, Point { x: 0, y: 600 },
        Point { x: -100i32, y: 0 }, Point { x: 0, y: -150i32 }]);
    assert(hand == 1 ==> r@ =~= seq![Point { x: 0, y: -200i32 }, Point { x: 50, y: 0 }, Point { x: 0, y: 800 },
        Point { x: -50i32, y: 0 }, Point { x: 0, y: -200i32 }]);
    assert(hand == 2 ==> r@ =~= seq![Point { x: 0, y: 0 }, Point { x: 0, y: 0 }, Point { x: 0, y: 0 },
        Point { x: 0, y: 0 }, Point { x: 0, y: 800 }]);
    r
}

/// The diameter of the dot that marks `angle` on the dial: large on the
/// hours (every 30 degrees), small on the minutes.
pub fn tick_size(angle: i32) -> (r: i32)
    requires
        angle >= 0,
    ensures
        r == (if angle % 5 != 0 { 33i32 } else { 100i32 }),
{
    if angle % 5 != 0 { 33 } else { 100 }
}

/// The box of a dot of diameter `size` centred on `center` (the centre
/// moved up and left by half the size, rounded toward zero).
pub fn tick_rect(center: Point, size: i32) -> (r: Rect)
    requires
        -10000 <= center.x <= 10000,
        -10000 <= center.y <= 10000,
        0 <= size <= 1000,
    ensures
        r == (Rect {
            left: (center.x - size / 2) as i32,
            top: (center.y - size / 2) as i32,
            right: (center.x - size / 2 + size) as i32,
            bottom: (center.y - size / 2 + size) as i32,
        }),
{
    let left = center.x - size / 2;
    let top = center.y - size / 2;
    Rect { left, top, right: left + size, bottom: top + size }
}

/// The isotropic mapping of the analog clock: a window of 1000 by 1000
/// units onto half the client area each way, with y up and the origin at
/// the centre. Returns the window extent, the viewport extent and the
/// viewport origin.
pub fn clock_mapping(cx_client: i32, cy_client: i32) -> (r: (Point, Point, Point))
    requires
        0 <= cx_client <= 65535,
        0 <= cy_client <= 65535,
    ensures
        r.0 == (Point { x: 1000, y: 1000 }),
        r.1 == (Point { x: (cx_client / 2) as i32, y: (-(cy_client / 2)) as i32 }),
        r.2 == (Point { x: (cx_client / 2) as i32, y: (cy_client / 2) as i32 }),
{
    (Point { x: 1000, y: 1000 }, Point { x: cx_client / 2, y: -cy_client / 2 }, Point { x: cx_client / 2, y: cy_client / 2 })
}

/// Which of the seven segments make up a digit: top, upper left, upper
/// right, middle, lower left, lower right, bottom.
pub open spec fn spec_segments(digit: int) -> Seq<bool> {
    if digit == 0 { seq![true, true, true, false, true, true, true] }
    else if digit == 1 { seq![false, false, true, false, false, true, false] }
    else if digit == 2 { seq![true, false, true, true, true, false, true] }
    else if digit == 3 { seq![true, false, true, true, false, true, true] }
    else if digit == 4 { seq![false, true, true, true, false, true, false] }
    else if digit == 5 { seq![true, true, false, true, false, true, true] }
    else if digit == 6 { seq![true, true, false, true, true, true, true] }
    else if digit == 7 { seq![true, false, true, false, false, true, false] }
    else if digit == 8 { seq![true, true, true, true, true, true, true] }
    else { seq![true, true, true, true, false, true, true] }
}

/// The segments that are lit for a digit.
pub fn segments(digit: i32) -> (r: [bool; 7])
    requires
        0 <= digit <= 9,
    ensures
        r@ == spec_segments(digit as int),
{
    let r = if digit == 0 { [true, true, true, false, true, true, true] }
    else if digit == 1 { [false, false, true, false, false, true, false] }
    else if digit == 2 { [true, false, true, true, true, false, true] }
    else if digit == 3 { [true, false, true, true, false, true, true] }
    else if digit == 4 { [false, true, true, true, false, true, false] }
    else if digit == 5 { [true, true, false, true, false, true, true] }
    else if digit == 6 { [true, true, false, true, true, true, true] }
    else if digit == 7 { [true, false, true, false, false, true, false] }
    else if digit == 8 { [true, true, true, true, true, true, true] }
    else { [true, true, true, true, false, true, true] };
    assert(r@ =~= spec_segments(digit as int));
    r
}

/// The outline of a segment, in the units of a digit cell 42 wide and 72
/// high.
pub fn segment_shape(segment: usize) -> (r: [Point; 6])
    requires
        segment < 7,
    ensures
        segment == 0 ==> r@ == seq![Point { x: 7, y: 6 }, Point { x: 11, y: 2 }, Point { x: 31, y: 2 }, Point { x: 35, y: 6 }, Point { x: 31, y: 10 }, Point { x: 11, y: 10 }],
        segment == 1 ==> r@ == seq![Point { x: 6, y: 7 }, Point { x: 10, y: 11 }, Point { x: 10, y: 31 }, Point { x: 6, y: 35 }, Point { x: 2, y: 31 }, Point { x: 2, y: 11 }],
        segment == 2 ==> r@ == seq![Point { x: 36, y: 7 }, Point { x: 40, y: 11 }, Point { x: 40, y: 31 }, Point { x: 36, y: 35 }, Point { x: 32, y: 31 }, Point { x: 32, y: 11 }],
        segment == 3 ==> r@ == seq![Point { x: 7, y: 36 }, Point { x: 11, y: 32 }, Point { x: 31, y: 32 }, Point { x: 35, y: 36 }, Point { x: 31, y: 40 }, Point { x: 11, y: 40 }],
        segment == 4 ==> r@ == seq![Point { x: 6, y: 37 }, Point { x: 10, y: 41 }, Point { x: 10, y: 61 }, Point { x: 6, y: 65 }, Point { x: 2, y: 61 }, Point { x: 2, y: 41 }],
        segment == 5 ==> r@ == seq![Point { x: 36, y: 37 }, Point { x: 40, y: 41 }, Point { x: 40, y: 61 }, Point { x: 36, y: 65 }, Point { x: 32, y: 61 }, Point { x: 32, y: 41 }],
        segment == 6 ==> r@ == seq![Point { x: 7, y: 66 }, Point { x: 11, y: 62 }, Point { x: 31, y: 62 }, Point { x: 35, y: 66 }, Point { x: 31, y: 70 }, Point { x: 11, y: 70 }],
{
    let r = if segment == 0 {
        [Point { x: 7, y: 6 }, Point { x: 11, y: 2 }, Point { x: 31, y: 2 }, Point { x: 35, y: 6 }, Point { x: 31, y: 10 }, Point { x: 11, y: 10 }]
    } else if segment == 1 {
        [Point { x: 6, y: 7 }, Point { x: 10, y: 11 }, Point { x: 10, y: 31 }, Point { x: 6, y: 35 }, Point { x: 2, y: 31 }, Point { x: 2, y: 11 }]
    } else if segment == 2 {
        [Point { x: 36, y: 7 }, Point { x: 40, y: 11 }, Point { x: 40, y: 31 }, Point { x: 36, y: 35 }, Point { x: 32, y: 31 }, Point { x: 32, y: 11 }]
    } else if segment == 3 {
        [Point { x: 7, y: 36 }, Point { x: 11, y: 32 }, Point { x: 31, y: 32 }, Point { x: 35, y: 36 }, Point { x: 31, y: 40 }, Point { x: 11, y: 40 }]
    } else if segment == 4 {
        [Point { x: 6, y: 37 }, Point { x: 10, y: 41 }, Point { x: 10, y: 61 }, Point { x: 6, y: 65 }, Point { x: 2, y: 61 }, Point { x: 2, y: 41 }]
    } else if segment == 5 {
        [Point { x: 36, y: 37 }, Point { x: 40, y: 41 }, Point { x: 40, y: 61 }, Point { x: 36, y: 65 }, Point { x: 32, y: 61 }, Point { x: 32, y: 41 }]
    } else {
        [Point { x: 7, y: 66 }, Point { x: 11, y: 62 }, Point { x: 31, y: 62 }, Point { x: 35, y: 66 }, Point { x: 31, y: 70 }, Point { x: 11, y: 70 }]
    };
    assert(segment == 0 ==> r@ =~= seq![Point { x: 7, y: 6 }, Point { x: 11, y: 2 }, Point { x: 31, y: 2 }, Point { x: 35, y: 6 }, Point { x: 31, y: 10 }, Point { x: 11, y: 10 }]);
    assert(segment == 1 ==> r@ =~= seq![Point { x: 6, y: 7 }, Point { x: 10, y: 11 }, Point { x: 10, y: 31 }, Point { x: 6, y: 35 }, Point { x: 2, y: 31 }, Point { x: 2, y: 11 }]);
    assert(segment == 2 ==> r@ =~= seq![Point { x: 36, y: 7 }, Point { x: 40, y: 11 }, Point { x: 40, y: 31 }, Point { x: 36, y: 35 }, Point { x: 32, y: 31 }, Point { x: 32, y: 11 }]);
    assert(segment == 3 ==> r@ =~= seq![Point { x: 7, y: 36 }, Point { x: 11, y: 32 }, Point { x: 31, y: 32 }, Point { x: 35, y: 36 }, Point { x: 31, y: 40 }, Point { x: 11, y: 40 }]);
    assert(segment == 4 ==> r@ =~= seq![Point { x: 6, y: 37 }, Point { x: 10, y: 41 }, Point { x: 10, y: 61 }, Point { x: 6, y: 65 }, Point { x: 2, y: 61 }, Point { x: 2, y: 41 }]);
    assert(segment == 5 ==> r@ =~= seq![Point { x: 36, y: 37 }, Point { x: 40, y: 41 }, Point { x: 40, y: 61 }, Point { x: 36, y: 65 }, Point { x: 32, y: 61 }, Point { x: 32, y: 41 }]);
    assert(segment == 6 ==> r@ =~= seq![Point { x: 7, y: 66 }, Point { x: 11, y: 62 }, Point { x: 31, y: 62 }, Point { x: 35, y: 66 }, Point { x: 31, y: 70 }, Point { x: 11, y: 70 }]);
    r
}

/// The outlines of the two dots of a colon, in a cell 12 wide.
pub fn colon_shape() -> (r: [[Point; 4]; 2])
    ensures
        r[0]@ == seq![Point { x: 2, y: 21 }, Point { x: 6, y: 17 }, Point { x: 10, y: 21 }, Point { x: 6, y: 26 }],
        r[1]@ == seq![Point { x: 2, y: 51 }, Point { x: 6, y: 47 }, Point { x: 10, y: 51 }, Point { x: 6, y: 55 }],
{
    let r = [
        [Point { x: 2, y: 21 }, Point { x: 6, y: 17 }, Point { x: 10, y: 21 }, Point { x: 6, y: 26 }],
        [Point { x: 2, y: 51 }, Point { x: 6, y: 47 }, Point { x: 10, y: 51 }, Point { x: 6, y: 55 }],
    ];
    assert(r[0]@ =~= seq![Point { x: 2, y: 21 }, Point { x: 6, y: 17 }, Point { x: 10, y: 21 }, Point { x: 6, y: 26 }]);
    assert(r[1]@ =~= seq![Point { x: 2, y: 51 }, Point { x: 6, y: 47 }, Point { x: 10, y: 51 }, Point { x: 6, y: 55 }]);
    r
}

/// The hour on display: in 12-hour format an hour that divides by 12
/// shows as 12 and the others as they are.
pub open spec fn spec_display_hour(hour: int, is_24h: bool) -> int {
    if is_24h { hour } else if hour % 12 != 0 { hour } else { 12 }
}

pub fn display_hour(hour: u16, is_24h: bool) -> (r: i32)
    ensures
        r == spec_display_hour(hour as int, is_24h),
{
    if is_24h { hour as i32 } else if hour % 12 != 0 { hour as i32 } else { 12 }
}

/// A shape to draw in the digital clock.
#[derive(Clone, Copy, PartialEq, Eq, Structural, Debug)]
pub enum Glyph {
    /// A digit with its cell's left edge at `x`.
    Digit { digit: i32, x: i32 },
    /// A colon with its cell's left edge at `x`.
    Colon { x: i32 },
}

/// The cells of two digits starting at `x`: the tens (left out when zero
/// and leading zeros are suppressed) and the ones, each 42 wide.
pub open spec fn two_digits(number: int, suppress: bool, x: int) -> Seq<Glyph> {
    let tens = if !suppress || number / 10 != 0 {
        seq![Glyph::Digit { digit: (number / 10) as i32, x: x as i32 }]
    } else {
        seq![]
    };
    tens.push(Glyph::Digit { digit: (number % 10) as i32, x: (x + 42) as i32 })
}

/// The whole time: hours (leading zero as the locale says), colon,
/// minutes, colon, seconds. The time takes 276 units across.
pub open spec fn time_glyphs(hour: int, minute: int, second: int, suppress: bool) -> Seq<Glyph> {
    two_digits(hour, suppress, 0)
        .push(Glyph::Colon { x: 84 })
        + two_digits(minute, false, 96)
        .push(Glyph::Colon { x: 180 })
        + two_digits(second, false, 192)
}

fn push_two_digits(out: &mut Vec<Glyph>, number: i32, suppress: bool, x: i32)
    requires
        0 <= number < 100,
        0 <= x <= 1000,
    ensures
        final(out)@ == old(out)@ + two_digits(number as int, suppress, x as int),
{
    if !suppress || number / 10 != 0 {
        out.push(Glyph::Digit { digit: number / 10, x });
    }
    out.push(Glyph::Digit { digit: number % 10, x: x + 42 });
    assert(final(out)@ =~= old(out)@ + two_digits(number as int, suppress, x as int));
}

/// What the digital clock draws for a time, in the order it draws it.
pub fn time_display(hour: u16, minute: u16, second: u16, is_24h: bool, suppress: bool) -> (r: Vec<Glyph>)
    requires
        hour < 100,
        minute < 100,
        second < 100,
    ensures
        r@ == time_glyphs(spec_display_hour(hour as int, is_24h), minute as int, second as int, suppress),
{
    let mut out: Vec<Glyph> = Vec::new();
    let h = display_hour(hour, is_24h);
    push_two_digits(&mut out, h, suppress, 0);
    out.push(Glyph::Colon { x: 84 });
    push_two_digits(&mut out, minute as i32, false, 96);
    out.push(Glyph::Colon { x: 180 });
    push_two_digits(&mut out, second as i32, false, 192);
    assert(out@ =~= time_glyphs(spec_display_hour(hour as int, is_24h), minute as int, second as int, suppress));
    out
}

/// The digital clock's mapping: the 276 by 72 units of the time centred
/// on the client area. Returns the window extent, the viewport extent,
/// the window origin and the viewport origin.
pub fn digital_mapping(cx_client: i32, cy_client: i32) -> (r: (Point, Point, Point, Point))
    requires
        0 <= cx_client <= 65535,
        0 <= cy_client <= 65535,
    ensures
        r.0 == (Point { x: 276, y: 72 }),
        r.1 == (Point { x: cx_client, y: cy_client }),
        r.2 == (Point { x: 138, y: 36 }),
        r.3 == (Point { x: (cx_client / 2) as i32, y: (cy_client / 2) as i32 }),
{
    (Point { x: 276, y: 72 }, Point { x: cx_client, y: cy_client }, Point { x: 138, y: 36 },
        Point { x: cx_client / 2, y: cy_client / 2 })
}

/// The locale's time format (`LOCALE_ITIME`) asks for 24 hours.
pub fn locale_is_24h(first: u16) -> (r: bool)
    ensures
        r == (first == 0x31),
{
    first == '1' as u16
}

/// The locale's leading-zero setting (`LOCALE_ITLZERO`) asks to leave the
/// hour's leading zero out.
pub fn locale_suppresses_zero(first: u16) -> (r: bool)
    ensures
        r == (first == 0x30),
{
    first == '0' as u16
}

/// The digits on display spell the number: tens and ones.
pub proof fn law_digits_spell_number(number: int, x: int)
    requires
        0 <= number < 100,
    ensures
        ({
            let g = two_digits(number, false, x);
            &&& g.len() == 2
            &&& g[0] matches Glyph::Digit { digit: t, .. } && g[1] matches Glyph::Digit { digit: o, .. }
                && 10 * t + o == number && 0 <= t <= 9 && 0 <= o <= 9
        }),
{
}

/// In 12-hour format no hour shows as 0.
pub proof fn law_twelve_hour_never_zero(hour: int)
    requires
        0 <= hour,
    ensures
        spec_display_hour(hour, false) != 0,
{
}

/// Which digits light each segment, as on any seven-segment display:
/// segment 0 is the top, 1 the upper left, 2 the upper right, 3 the
/// middle, 4 the lower left, 5 the lower right and 6 the bottom (as
/// `segment_shape` places them).
pub open spec fn lit_on_display(segment: int, d: int) -> bool {
    if segment == 0 { d != 1 && d != 4 }
    else if segment == 1 { d == 0 || d == 4 || d == 5 || d == 6 || d == 8 || d == 9 }
    else if segment == 2 { d != 5 && d != 6 }
    else if segment == 3 { d != 0 && d != 1 && d != 7 }
    else if segment == 4 { d == 0 || d == 2 || d == 6 || d == 8 }
    else if segment == 5 { d != 2 }
    else { d != 1 && d != 4 && d != 7 }
}

/// Each digit lights the segments that draw it, and no two digits look
/// alike.
pub proof fn law_segments_draw_digits()
    ensures
        forall|d: int, k: int| 0 <= d <= 9 && 0 <= k < 7 ==>
            (#[trigger] spec_segments(d)[k] <==> lit_on_display(k, d)),
        forall|d1: int, d2: int| 0 <= d1 <= 9 && 0 <= d2 <= 9 && #[trigger] spec_segments(d1) == #[trigger] spec_segments(d2)
            ==> d1 == d2,
        forall|d: int| 0 <= d <= 9 ==> (#[trigger] spec_segments(d)).len() == 7,
{
    assert forall|d: int, k: int| 0 <= d <= 9 && 0 <= k < 7 implies
        (#[trigger] spec_segments(d)[k] <==> lit_on_display(k, d)) by {
        if d == 0 {} else if d == 1 {} else if d == 2 {} else if d == 3 {} else if d == 4 {}
        else if d == 5 {} else if d == 6 {} else if d == 7 {} else if d == 8 {} else {}
    }
    assert forall|d1: int, d2: int| 0 <= d1 <= 9 && 0 <= d2 <= 9 && #[trigger] spec_segments(d1) == #[trigger] spec_segments(d2)
        implies d1 == d2 by {
        let p = spec_segments(d1);
        let q = spec_segments(d2);
        assert(p[0] == q[0] && p[1] == q[1] && p[2] == q[2] && p[3] == q[3] && p[4] == q[4] && p[5] == q[5] && p[6] == q[6]);
        assert(p[0] <==> lit_on_display(0, d1));
        assert(p[1] <==> lit_on_display(1, d1));
        assert(p[2] <==> lit_on_display(2, d1));
        assert(p[3] <==> lit_on_display(3, d1));
        assert(p[4] <==> lit_on_display(4, d1));
        assert(p[5] <==> lit_on_display(5, d1));
        assert(p[6] <==> lit_on_display(6, d1));
        assert(q[0] <==> lit_on_display(0, d2));
        assert(q[1] <==> lit_on_display(1, d2));
        assert(q[2] <==> lit_on_display(2, d2));
        assert(q[3] <==> lit_on_display(3, d2));
        assert(q[4] <==> lit_on_display(4, d2));
        assert(q[5] <==> lit_on_display(5, d2));
        assert(q[6] <==> lit_on_display(6, d2));
    }
}

} // verus!
