//! Scroll bar positions: how each program moves its position for a scroll
//! bar request or a key, and which rows a scrolled window paints.
use vstd::prelude::*;
use crate::arith::{div_i32, trunc_div};

verus! {

/// Scroll bar request codes (the low word of `wParam`).
pub const SB_LINEUP: i32 = 0;
pub const SB_LINEDOWN: i32 = 1;
pub const SB_PAGEUP: i32 = 2;
pub const SB_PAGEDOWN: i32 = 3;
pub const SB_THUMBPOSITION: i32 = 4;
pub const SB_THUMBTRACK: i32 = 5;
pub const SB_TOP: i32 = 6;
pub const SB_BOTTOM: i32 = 7;
/// The horizontal names of the same codes.
pub const SB_LINELEFT: i32 = 0;
pub const SB_LINERIGHT: i32 = 1;
pub const SB_PAGELEFT: i32 = 2;
pub const SB_PAGERIGHT: i32 = 3;

/// Virtual keys that scroll.
pub const VK_PRIOR: u16 = 0x21;
pub const VK_NEXT: u16 = 0x22;
pub const VK_END: u16 = 0x23;
pub const VK_HOME: u16 = 0x24;
pub const VK_LEFT: u16 = 0x25;
pub const VK_UP: u16 = 0x26;
pub const VK_RIGHT: u16 = 0x27;
pub const VK_DOWN: u16 = 0x28;

/// `max(lo, min(v, hi))`.
pub open spec fn clamp(v: int, lo: int, hi: int) -> int {
    let m = if v < hi { v } else { hi };
    if lo > m { lo } else { m }
}

/// The rows in a page: the client height over the row height.
pub open spec fn page_rows(cy_client: int, cy_char: int) -> int {
    trunc_div(cy_client, cy_char)
}

/// The row a request asks for, before it is kept on the list.
pub open spec fn requested_row(pos: int, code: i32, thumb: int, cy_client: int, cy_char: int) -> int {
    if code == SB_LINEUP {
        pos - 1
    } else if code == SB_LINEDOWN {
        pos + 1
    } else if code == SB_PAGEUP {
        pos - page_rows(cy_client, cy_char)
    } else if code == SB_PAGEDOWN {
        pos + page_rows(cy_client, cy_char)
    } else if code == SB_THUMBPOSITION {
        thumb
    } else {
        pos
    }
}

/// The request pages, which needs the row height.
pub open spec fn pages(code: i32) -> bool {
    code == SB_PAGEUP || code == SB_PAGEDOWN
}

/// The first row shown in the system metrics list after a scroll request:
/// a line or a page (the rows that fit in the client area) up or down, or
/// where the thumb was dropped, kept between 0 and `last`.
pub fn scroll_rows(pos: i32, code: i32, thumb: i32, cy_client: i32, cy_char: i32, last: i32) -> (r: i32)
    requires
        pages(code) ==> cy_char != 0 && !(cy_client == i32::MIN && cy_char == -1),
        i32::MIN <= requested_row(pos as int, code, thumb as int, cy_client as int, cy_char as int) <= i32::MAX,
    ensures
        r == clamp(requested_row(pos as int, code, thumb as int, cy_client as int, cy_char as int), 0, last as int),
{
    let p = if code == SB_LINEUP {
        pos - 1
    } else if code == SB_LINEDOWN {
        pos + 1
    } else if code == SB_PAGEUP {
        pos - div_i32(cy_client, cy_char)
    } else if code == SB_PAGEDOWN {
        pos + div_i32(cy_client, cy_char)
    } else if code == SB_THUMBPOSITION {
        thumb
    } else {
        pos
    };
    let m = if p < last { p } else { last };
    if 0 > m { 0 } else { m }
}

/// The font a request selects in the stock font list.
pub open spec fn requested_font(i_font: int, code: i32, thumb: int, last: int) -> int {
    if code == SB_TOP {
        0
    } else if code == SB_BOTTOM {
        last
    } else if code == SB_LINEUP || code == SB_PAGEUP {
        i_font - 1
    } else if code == SB_LINEDOWN || code == SB_PAGEDOWN {
        i_font + 1
    } else if code == SB_THUMBPOSITION {
        thumb
    } else {
        i_font
    }
}

/// The stock font shown after a scroll request: the first, the last, one
/// before or after (a page is one font), or where the thumb was dropped,
/// kept between 0 and `last`.
pub fn scroll_fonts(i_font: i32, code: i32, thumb: i32, last: i32) -> (r: i32)
    requires
        i32::MIN <= requested_font(i_font as int, code, thumb as int, last as int) <= i32::MAX,
    ensures
        r == clamp(requested_font(i_font as int, code, thumb as int, last as int), 0, last as int),
{
    let i = if code == SB_TOP {
        0
    } else if code == SB_BOTTOM {
        last
    } else if code == SB_LINEUP || code == SB_PAGEUP {
        i_font - 1
    } else if code == SB_LINEDOWN || code == SB_PAGEDOWN {
        i_font + 1
    } else if code == SB_THUMBPOSITION {
        thumb
    } else {
        i_font
    };
    let m = if last < i { last } else { i };
    if 0 > m { 0 } else { m }
}

/// The scroll request a key sends in the stock font program: Home the
/// first font, End the last, Page Up and the left and up arrows the one
/// before, Page Down and the right and down arrows the one after.
pub fn font_key_request(vk: u16) -> (r: Option<i32>)
    ensures
        r == (if vk == VK_HOME { Some(SB_TOP) }
            else if vk == VK_END { Some(SB_BOTTOM) }
            else if vk == VK_PRIOR || vk == VK_LEFT || vk == VK_UP { Some(SB_LINEUP) }
            else if vk == VK_NEXT || vk == VK_RIGHT || vk == VK_DOWN { Some(SB_PAGEDOWN) }
            else { None::<i32> }),
{
    if vk == VK_HOME {
        Some(SB_TOP)
    } else if vk == VK_END {
        Some(SB_BOTTOM)
    } else if vk == VK_PRIOR || vk == VK_LEFT || vk == VK_UP {
        Some(SB_LINEUP)
    } else if vk == VK_NEXT || vk == VK_RIGHT || vk == VK_DOWN {
        Some(SB_PAGEDOWN)
    } else {
        None
    }
}

/// Which scroll bar a request goes to.
#[derive(Clone, Copy, PartialEq, Eq, Structural, Debug)]
pub enum Bar {
    Vertical,
    Horizontal,
}

/// The scroll request a key sends in the scrolling system metrics
/// program: Home, End, Page Up, Page Down and the up and down arrows
/// scroll vertically; the left and right arrows page horizontally.
pub fn metrics_key_request(vk: u16) -> (r: Option<(Bar, i32)>)
    ensures
        r == (if vk == VK_HOME { Some((Bar::Vertical, SB_TOP)) }
            else if vk == VK_END { Some((Bar::Vertical, SB_BOTTOM)) }
            else if vk == VK_PRIOR { Some((Bar::Vertical, SB_PAGEUP)) }
            else if vk == VK_NEXT { Some((Bar::Vertical, SB_PAGEDOWN)) }
            else if vk == VK_UP { Some((Bar::Vertical, SB_LINEUP)) }
            else if vk == VK_DOWN { Some((Bar::Vertical, SB_LINEDOWN)) }
            else if vk == VK_LEFT { Some((Bar::Horizontal, SB_PAGEUP)) }
            else if vk == VK_RIGHT { Some((Bar::Horizontal, SB_PAGEDOWN)) }
            else { None::<(Bar, i32)> }),
{
    if vk == VK_HOME {
        Some((Bar::Vertical, SB_TOP))
    } else if vk == VK_END {
        Some((Bar::Vertical, SB_BOTTOM))
    } else if vk == VK_PRIOR {
        Some((Bar::Vertical, SB_PAGEUP))
    } else if vk == VK_NEXT {
        Some((Bar::Vertical, SB_PAGEDOWN))
    } else if vk == VK_UP {
        Some((Bar::Vertical, SB_LINEUP))
    } else if vk == VK_DOWN {
        Some((Bar::Vertical, SB_LINEDOWN))
    } else if vk == VK_LEFT {
        Some((Bar::Horizontal, SB_PAGEUP))
    } else if vk == VK_RIGHT {
        Some((Bar::Horizontal, SB_PAGEDOWN))
    } else {
        None
    }
}

/// What a scroll bar reports of itself.
#[derive(Clone, Copy, PartialEq, Eq, Structural, Debug)]
pub struct ScrollState {
    pub min: i32,
    pub max: i32,
    pub page: u32,
    pub pos: i32,
    pub track_pos: i32,
}

/// The position a request asks the scroll bar for (the scroll bar then
/// keeps it in its range). Vertically: top, bottom, a line or a page up or
/// down, or where the thumb is being dragged; horizontally: a line or a
/// page left or right, or where the thumb was dropped.
pub open spec fn requested_pos(bar: Bar, code: i32, si: ScrollState) -> int {
    let page = si.page as i32;
    if bar == Bar::Vertical {
        if code == SB_TOP { si.min as int }
        else if code == SB_BOTTOM { si.max as int }
        else if code == SB_LINEUP { si.pos - 1 }
        else if code == SB_LINEDOWN { si.pos + 1 }
        else if code == SB_PAGEUP { si.pos - page }
        else if code == SB_PAGEDOWN { si.pos + page }
        else if code == SB_THUMBTRACK { si.track_pos as int }
        else { si.pos as int }
    } else {
        if code == SB_LINELEFT { si.pos - 1 }
        else if code == SB_LINERIGHT { si.pos + 1 }
        else if code == SB_PAGELEFT { si.pos - page }
        else if code == SB_PAGERIGHT { si.pos + page }
        else if code == SB_THUMBPOSITION { si.track_pos as int }
        else { si.pos as int }
    }
}

/// The position a scroll request asks for in the scrolling system metrics
/// program.
pub fn request_position(bar: Bar, code: i32, si: ScrollState) -> (r: i32)
    requires
        i32::MIN <= requested_pos(bar, code, si) <= i32::MAX,
    ensures
        r == requested_pos(bar, code, si),
{
    let page = si.page as i32;
    match bar {
        Bar::Vertical => {
            if code == SB_TOP { si.min }
            else if code == SB_BOTTOM { si.max }
            else if code == SB_LINEUP { si.pos - 1 }
            else if code == SB_LINEDOWN { si.pos + 1 }
            else if code == SB_PAGEUP { si.pos - page }
            else if code == SB_PAGEDOWN { si.pos + page }
            else if code == SB_THUMBTRACK { si.track_pos }
            else { si.pos }
        }
        Bar::Horizontal => {
            if code == SB_LINELEFT { si.pos - 1 }
            else if code == SB_LINERIGHT { si.pos + 1 }
            else if code == SB_PAGELEFT { si.pos - page }
            else if code == SB_PAGERIGHT { si.pos + page }
            else if code == SB_THUMBPOSITION { si.track_pos }
            else { si.pos }
        }
    }
}

/// How far the window contents move when the position changes from `old`
/// to `new`: a row or a character per step, opposite to the scroll.
pub fn scroll_amount(char_size: i32, old: i32, new: i32) -> (r: i32)
    requires
        i32::MIN <= char_size * (old - new) <= i32::MAX,
        i32::MIN <= old - new <= i32::MAX,
    ensures
        r == char_size * (old - new),
{
    char_size * (old - new)
}

/// The rows of the list (`0..=last`) that a paint request from `top` to
/// `bottom` pixels covers, when row `vert_pos` is at the top of the
/// window. A first row past the end gives an empty range.
pub open spec fn paint_range(vert_pos: int, top: int, bottom: int, cy_char: int, last: int) -> (int, int) {
    let b = vert_pos + trunc_div(top, cy_char);
    let e = vert_pos + trunc_div(bottom, cy_char);
    (if b > 0 { b } else { 0 }, if e < 0 { last } else if e < last { e } else { last })
}

/// The rows to paint, from the first to the last (both included).
pub fn paint_rows(vert_pos: i32, top: i32, bottom: i32, cy_char: i32, last: usize) -> (r: (usize, usize))
    requires
        cy_char != 0,
        !(cy_char == -1 && (top == i32::MIN || bottom == i32::MIN)),
        i32::MIN <= vert_pos + trunc_div(top as int, cy_char as int) <= i32::MAX,
        i32::MIN <= vert_pos + trunc_div(bottom as int, cy_char as int) <= i32::MAX,
    ensures
        r.0 == paint_range(vert_pos as int, top as int, bottom as int, cy_char as int, last as int).0,
        r.1 == paint_range(vert_pos as int, top as int, bottom as int, cy_char as int, last as int).1,
{
    let b = vert_pos + div_i32(top, cy_char);
    let e = vert_pos + div_i32(bottom, cy_char);
    let beg: usize = if b > 0 { b as usize } else { 0 };
    let end: usize = if e < 0 { last } else if (e as usize) < last { e as usize } else { last };
    (beg, end)
}

/// The range and page of the vertical scroll bar: one row per list entry,
/// a page of the rows that fit.
pub fn vertical_range(count: usize, cy_client: i32, cy_char: i32) -> (r: ScrollState)
    requires
        1 <= count <= 0x8000_0000,
        cy_char != 0,
        !(cy_client == i32::MIN && cy_char == -1),
    ensures
        r.min == 0,
        r.max == count - 1,
        r.page == trunc_div(cy_client as int, cy_char as int) as u32,
        r.pos == 0,
        r.track_pos == 0,
{
    ScrollState { min: 0, max: (count - 1) as i32, page: div_i32(cy_client, cy_char) as u32, pos: 0, track_pos: 0 }
}

/// The range and page of the horizontal scroll bar: the widest line in
/// characters, two more, and a page of the characters that fit.
pub fn horizontal_range(max_width: i32, cx_client: i32, cx_char: i32) -> (r: ScrollState)
    requires
        cx_char != 0,
        !(cx_char == -1 && (cx_client == i32::MIN || max_width == i32::MIN)),
        trunc_div(max_width as int, cx_char as int) <= i32::MAX - 2,
    ensures
        r.min == 0,
        r.max == 2 + trunc_div(max_width as int, cx_char as int),
        r.page == trunc_div(cx_client as int, cx_char as int) as u32,
        r.pos == 0,
        r.track_pos == 0,
{
    ScrollState {
        min: 0,
        max: 2 + div_i32(max_width, cx_char),
        page: div_i32(cx_client, cx_char) as u32,
        pos: 0,
        track_pos: 0,
    }
}

/// The value a request gives a colour scroll bar of the first colour
/// program: a page is 15 (and is not held in range), a line is 1 (held
/// between 0 and 255), top and bottom are 0 and 255, and the thumb gives
/// its position.
pub open spec fn color_value_unheld(value: int, code: i32, thumb: int) -> int {
    if code == SB_PAGEDOWN { value + 15 }
    else if code == SB_LINEDOWN { if 255 < value + 1 { 255 } else { value + 1 } }
    else if code == SB_PAGEUP { value - 15 }
    else if code == SB_LINEUP { if 0 > value - 1 { 0 } else { value - 1 } }
    else if code == SB_TOP { 0 }
    else if code == SB_BOTTOM { 255 }
    else if code == SB_THUMBPOSITION || code == SB_THUMBTRACK { thumb }
    else { value }
}

/// A colour value after a scroll request in the first colour program.
pub fn color_scroll_unheld(value: i32, code: i32, thumb: i32) -> (r: i32)
    requires
        i32::MIN + 15 <= value <= i32::MAX - 15,
    ensures
        r == color_value_unheld(value as int, code, thumb as int),
{
    if code == SB_PAGEDOWN { value + 15 }
    else if code == SB_LINEDOWN { if 255 < value + 1 { 255 } else { value + 1 } }
    else if code == SB_PAGEUP { value - 15 }
    else if code == SB_LINEUP { if 0 > value - 1 { 0 } else { value - 1 } }
    else if code == SB_TOP { 0 }
    else if code == SB_BOTTOM { 255 }
    else if code == SB_THUMBPOSITION || code == SB_THUMBTRACK { thumb }
    else { value }
}

/// The value a request gives a colour scroll bar of the dialog colour
/// program, every step held between 0 and 255; an unknown request is not
/// handled.
pub open spec fn color_value_held(value: int, code: i32, thumb: int) -> Option<int> {
    if code == SB_PAGEDOWN { Some(if 255 < value + 15 { 255 } else { value + 15 }) }
    else if code == SB_LINEDOWN { Some(if 255 < value + 1 { 255 } else { value + 1 }) }
    else if code == SB_PAGEUP { Some(if 0 > value - 15 { 0 } else { value - 15 }) }
    else if code == SB_LINEUP { Some(if 0 > value - 1 { 0 } else { value - 1 }) }
    else if code == SB_TOP { Some(0) }
    else if code == SB_BOTTOM { Some(255) }
    else if code == SB_THUMBPOSITION || code == SB_THUMBTRACK { Some(thumb) }
    else { None }
}

/// A colour value after a scroll request in the dialog colour program.
pub fn color_scroll_held(value: i32, code: i32, thumb: i32) -> (r: Option<i32>)
    requires
        i32::MIN + 15 <= value <= i32::MAX - 15,
    ensures
        r matches Some(v) ==> color_value_held(value as int, code, thumb as int) == Some(v as int),
        r is None <==> color_value_held(value as int, code, thumb as int) is None,
{
    if code == SB_PAGEDOWN { Some(if 255 < value + 15 { 255 } else { value + 15 }) }
    else if code == SB_LINEDOWN { Some(if 255 < value + 1 { 255 } else { value + 1 }) }
    else if code == SB_PAGEUP { Some(if 0 > value - 15 { 0 } else { value - 15 }) }
    else if code == SB_LINEUP { Some(if 0 > value - 1 { 0 } else { value - 1 }) }
    else if code == SB_TOP { Some(0) }
    else if code == SB_BOTTOM { Some(255) }
    else if code == SB_THUMBPOSITION || code == SB_THUMBTRACK { Some(thumb) }
    else { None }
}

/// The colour scroll bar that Tab moves the focus to: the next one, or the
/// one before with Shift (of three, in a ring).
pub fn next_focus(id: i32, shift: bool) -> (r: i32)
    requires
        0 <= id < 3,
    ensures
        r == (id + if shift { 2int } else { 1int }) % 3,
{
    (id + if shift { 2 } else { 1 }) % 3
}

/// The list position stays on the list whatever the request.
pub proof fn law_rows_stay_on_list(pos: int, code: i32, thumb: int, cy_client: int, cy_char: int, last: int)
    requires
        last >= 0,
    ensures
        0 <= clamp(requested_row(pos, code, thumb, cy_client, cy_char), 0, last) <= last,
{
}

/// A line down and then a line up come back to the same row, away from the
/// ends of the list.
pub proof fn law_line_down_up(pos: int, last: int, cy_client: int, cy_char: int)
    requires
        0 <= pos < last,
    ensures
        clamp(requested_row(clamp(requested_row(pos, SB_LINEDOWN, 0, cy_client, cy_char), 0, last),
            SB_LINEUP, 0, cy_client, cy_char), 0, last) == pos,
{
}

/// The selected stock font is always one of the list.
pub proof fn law_font_on_list(i_font: int, code: i32, thumb: int, last: int)
    requires
        last >= 0,
    ensures
        0 <= clamp(requested_font(i_font, code, thumb, last), 0, last) <= last,
{
}

/// In the dialog colour program a colour value stays a colour value: from
/// 0 to 255 whatever the request, given a thumb position in that range.
pub proof fn law_held_color_in_range(value: int, code: i32, thumb: int)
    requires
        0 <= value <= 255,
        0 <= thumb <= 255,
    ensures
        color_value_held(value, code, thumb) matches Some(v) ==> 0 <= v <= 255,
{
}

/// A scroll request moves the position by what it names: a line up or
/// down by one, a page up or down by the scroll bar's page, top and bottom
/// to the ends of the range; a page down then a page up (or a line down
/// then a line up) returns to where it started.
pub proof fn law_requests_move_by_their_size(si: ScrollState)
    requires
        si.page <= i32::MAX,
    ensures
        requested_pos(Bar::Vertical, SB_PAGEDOWN, si) == si.pos + si.page,
        requested_pos(Bar::Vertical, SB_PAGEUP, si) == si.pos - si.page,
        requested_pos(Bar::Vertical, SB_LINEDOWN, si) == si.pos + 1,
        requested_pos(Bar::Vertical, SB_LINEUP, si) == si.pos - 1,
        requested_pos(Bar::Vertical, SB_TOP, si) == si.min,
        requested_pos(Bar::Vertical, SB_BOTTOM, si) == si.max,
        requested_pos(Bar::Horizontal, SB_PAGERIGHT, si) == si.pos + si.page,
        requested_pos(Bar::Horizontal, SB_PAGELEFT, si) == si.pos - si.page,
        requested_pos(Bar::Horizontal, SB_LINERIGHT, si) == si.pos + 1,
        requested_pos(Bar::Horizontal, SB_LINELEFT, si) == si.pos - 1,
        i32::MIN <= si.pos + si.page <= i32::MAX ==> requested_pos(Bar::Vertical, SB_PAGEUP,
            ScrollState { pos: requested_pos(Bar::Vertical, SB_PAGEDOWN, si) as i32, ..si }) == si.pos,
        si.pos < i32::MAX ==> requested_pos(Bar::Vertical, SB_LINEUP,
            ScrollState { pos: requested_pos(Bar::Vertical, SB_LINEDOWN, si) as i32, ..si }) == si.pos,
{
}

} // verus!
