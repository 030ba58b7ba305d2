//! The keyboard message viewer: the log of recent key messages and the
//! line each message is shown as.
use vstd::prelude::*;
use vstd::string::StrSliceExecFns;
use crate::arith::{div_i32, trunc_div};
use crate::fmt::{pad_left, pad_right, signed_digits, dec_digits, hex_prefixed, fill, push_char, push_fill, push_str,
    push_str_left, push_str_right, push_signed_right, push_dec, push_hex_prefixed, dec_len};
use crate::geom::Rect;
use crate::wide::{from_wide, wide_text};
use crate::words::{loword, hiword, low_word, high_word};

verus! {

pub const WM_KEYDOWN: u32 = 0x100;
pub const WM_KEYUP: u32 = 0x101;
pub const WM_CHAR: u32 = 0x102;
pub const WM_DEADCHAR: u32 = 0x103;
pub const WM_SYSKEYDOWN: u32 = 0x104;
pub const WM_SYSKEYUP: u32 = 0x105;
pub const WM_SYSCHAR: u32 = 0x106;
pub const WM_SYSDEADCHAR: u32 = 0x107;

/// A key message as it came.
#[derive(Clone, Copy, PartialEq, Eq, Structural, Debug)]
pub struct KeyMsg {
    pub message: u32,
    pub wparam: usize,
    pub lparam: isize,
}

/// The messages shown, oldest first, and how many lines fit.
#[derive(Debug)]
pub struct KeyLog {
    pub msgs: Vec<KeyMsg>,
    pub lines_max: i32,
}

/// The newest messages that fit: the last `lines_max` of them.
pub open spec fn kept(s: Seq<KeyMsg>, lines_max: int) -> Seq<KeyMsg> {
    if lines_max <= 0 {
        seq![]
    } else if s.len() <= lines_max {
        s
    } else {
        s.subrange(s.len() - lines_max, s.len() as int)
    }
}

impl KeyLog {
    /// An empty log for a screen of `cy_client_max` pixels with lines of
    /// `cy_char` pixels.
    pub fn new(cy_client_max: i32, cy_char: i32) -> (log: KeyLog)
        requires
            cy_char != 0,
            !(cy_client_max == i32::MIN && cy_char == -1),
        ensures
            log.msgs@.len() == 0,
            log.lines_max == trunc_div(cy_client_max as int, cy_char as int),
    {
        KeyLog { msgs: Vec::new(), lines_max: div_i32(cy_client_max, cy_char) }
    }

    /// Starts over for a new font or display: the log empties and the
    /// number of lines is computed again.
    pub fn reset(&mut self, cy_client_max: i32, cy_char: i32)
        requires
            cy_char != 0,
            !(cy_client_max == i32::MIN && cy_char == -1),
        ensures
            final(self).msgs@.len() == 0,
            final(self).lines_max == trunc_div(cy_client_max as int, cy_char as int),
    {
        self.msgs.clear();
        self.lines_max = div_i32(cy_client_max, cy_char);
    }

    /// Logs a message; the oldest ones go when there are more than fit.
    pub fn record(&mut self, m: KeyMsg)
        requires
            old(self).msgs@.len() < i32::MAX,
            old(self).lines_max >= 0,
        ensures
            final(self).lines_max == old(self).lines_max,
            final(self).msgs@ == kept(old(self).msgs@.push(m), old(self).lines_max as int),
    {
        self.msgs.push(m);
        let ghost all = self.msgs@;
        while self.msgs.len() as i32 > self.lines_max
            invariant
                self.lines_max == old(self).lines_max,
                self.lines_max >= 0,
                all == old(self).msgs@.push(m),
                self.msgs@.len() <= all.len(),
                all.len() <= i32::MAX,
                self.msgs@ == all.subrange(all.len() - self.msgs@.len(), all.len() as int),
                self.msgs@.len() == all.len() || self.msgs@.len() >= self.lines_max,
            decreases self.msgs@.len(),
        {
            self.msgs.remove(0);
            assert(self.msgs@ =~= all.subrange(all.len() - self.msgs@.len(), all.len() as int));
        }
        proof {
            if self.msgs@.len() == all.len() {
                assert(self.msgs@ =~= all);
            }
        }
        assert(self.msgs@ =~= kept(all, self.lines_max as int));
    }
}

/// Whether a message carries a character (rather than a key).
pub open spec fn is_char_message(message: u32) -> bool {
    message == WM_CHAR || message == WM_SYSCHAR || message == WM_DEADCHAR || message == WM_SYSDEADCHAR
}

/// The name a key message is shown under.
pub open spec fn spec_message_name(message: u32) -> &'static str {
    if message == WM_KEYDOWN { "WM_KEYDOWN" }
    else if message == WM_KEYUP { "WM_KEYUP" }
    else if message == WM_CHAR { "WM_CHAR" }
    else if message == WM_DEADCHAR { "WM_DEADCHAR" }
    else if message == WM_SYSKEYDOWN { "WM_SYSKEYDOWN" }
    else if message == WM_SYSKEYUP { "WM_SYSKEYUP" }
    else if message == WM_SYSCHAR { "WM_SYSCHAR" }
    else { "WM_SYSDEADCHAR" }
}

pub fn message_name(message: u32) -> (r: &'static str)
    requires
        WM_KEYDOWN <= message <= WM_SYSDEADCHAR,
    ensures
        r == spec_message_name(message),
{
    if message == WM_KEYDOWN { "WM_KEYDOWN" }
    else if message == WM_KEYUP { "WM_KEYUP" }
    else if message == WM_CHAR { "WM_CHAR" }
    else if message == WM_DEADCHAR { "WM_DEADCHAR" }
    else if message == WM_SYSKEYDOWN { "WM_SYSKEYDOWN" }
    else if message == WM_SYSKEYUP { "WM_SYSKEYUP" }
    else if message == WM_SYSCHAR { "WM_SYSCHAR" }
    else { "WM_SYSDEADCHAR" }
}

/// A flag shown as one of two words, right-aligned in `width` characters.
#[verifier::opaque]
pub open spec fn flag_text(set: bool, yes: Seq<char>, no: Seq<char>, width: int) -> Seq<char> {
    pad_left(if set { yes } else { no }, width)
}

/// The repeat count and the scan code of a key message's `lParam`.
pub open spec fn count_columns(lparam: isize) -> Seq<char> {
    pad_left(signed_digits(low_word(lparam as int)), 6) + seq![' ']
        + pad_left(signed_digits(high_word(lparam as int) % 256), 4) + seq![' ']
}

/// The extended, context (Alt), previous-state and transition flags of a
/// key message's `lParam`.
pub open spec fn state_columns(lparam: isize) -> Seq<char> {
    flag_text((lparam as i64) & 0x0100_0000i64 != 0, "Yes"@, "No"@, 3) + seq![' ']
        + flag_text((lparam as i64) & 0x2000_0000i64 != 0, "Yes"@, "No"@, 3) + seq![' ']
        + flag_text((lparam as i64) & 0x4000_0000i64 != 0, "Down"@, "Up"@, 4) + seq![' ']
        + flag_text((lparam as i64) & 0x8000_0000i64 != 0, "Up"@, "Down"@, 4)
}

/// The columns after the key: repeat count, scan code and the four flags.
pub open spec fn flag_columns(lparam: isize) -> Seq<char> {
    count_columns(lparam) + state_columns(lparam)
}

/// The line a message is shown as. A character message shows the
/// character's code and the character; a key message shows the key's code
/// in decimal and the key's name.
pub open spec fn spec_key_line(m: KeyMsg, key_name: Seq<char>) -> Seq<char> {
    if is_char_message(m.message) {
        pad_right(spec_message_name(m.message)@, 13) + fill(' ', 12)
            + hex_prefixed(m.wparam as nat, 6) + seq![' ']
            + wide_text(seq![(m.wparam % 65536) as u16, 0u16]) + seq![' ']
            + flag_columns(m.lparam)
    } else {
        pad_right(spec_message_name(m.message)@, 13) + seq![' ']
            + pad_left(dec_digits(m.wparam as nat), 3) + seq![' ']
            + pad_right(key_name, 15) + seq![' ']
            + flag_columns(m.lparam)
    }
}

fn push_flag(s: &mut String, set: bool, yes: &str, no: &str, width: usize)
    ensures
        final(s)@ == old(s)@ + flag_text(set, yes@, no@, width as int),
{
    push_str_right(s, if set { yes } else { no }, width);
    proof {
        reveal(flag_text);
    }
}

fn push_count_columns(s: &mut String, lparam: isize)
    ensures
        final(s)@ == old(s)@ + count_columns(lparam),
{
    push_signed_right(s, loword(lparam) as i64, 6);
    push_char(s, ' ');
    let h = hiword(lparam);
    assert(h & 0xFF == h % 256) by (bit_vector) requires 0 <= h < 65536;
    push_signed_right(s, (h & 0xFF) as i64, 4);
    push_char(s, ' ');
    assert(final(s)@ =~= old(s)@ + count_columns(lparam));
}

fn push_state_columns(s: &mut String, lparam: isize)
    ensures
        final(s)@ == old(s)@ + state_columns(lparam),
{
    let p = lparam as i64;
    push_flag(s, p & 0x0100_0000i64 != 0, "Yes", "No", 3);
    push_char(s, ' ');
    push_flag(s, p & 0x2000_0000i64 != 0, "Yes", "No", 3);
    push_char(s, ' ');
    push_flag(s, p & 0x4000_0000i64 != 0, "Down", "Up", 4);
    push_char(s, ' ');
    push_flag(s, p & 0x8000_0000i64 != 0, "Up", "Down", 4);
    assert(final(s)@ =~= old(s)@ + state_columns(lparam));
}

fn push_flag_columns(s: &mut String, lparam: isize)
    ensures
        final(s)@ == old(s)@ + flag_columns(lparam),
{
    push_count_columns(s, lparam);
    push_state_columns(s, lparam);
    assert(final(s)@ =~= old(s)@ + flag_columns(lparam));
}

/// The line a message is shown as; `key_name` is the key's name as the
/// keyboard layout gives it (for key messages).
pub fn key_line(m: &KeyMsg, key_name: &str) -> (s: String)
    requires
        WM_KEYDOWN <= m.message <= WM_SYSDEADCHAR,
    ensures
        s@ == spec_key_line(*m, key_name@),
{
    let mut s = String::new();
    let name = message_name(m.message);
    push_str_left(&mut s, name, 13);
    if m.message == WM_CHAR || m.message == WM_SYSCHAR || m.message == WM_DEADCHAR || m.message == WM_SYSDEADCHAR {
        push_fill(&mut s, ' ', 12);
        push_hex_prefixed(&mut s, m.wparam as u64, 6);
        push_char(&mut s, ' ');
        let units: [u16; 2] = [(m.wparam % 65536) as u16, 0];
        let key_val = from_wide(&units);
        assert(units@ =~= seq![(m.wparam % 65536) as u16, 0u16]);
        push_str(&mut s, key_val.as_str());
        push_char(&mut s, ' ');
    } else {
        push_char(&mut s, ' ');
        let len = dec_len(m.wparam as u64);
        if len < 3 {
            push_fill(&mut s, ' ', 3 - len);
        } else {
            push_fill(&mut s, ' ', 0);
        }
        push_dec(&mut s, m.wparam as u64);
        push_char(&mut s, ' ');
        push_str_left(&mut s, key_name, 15);
        push_char(&mut s, ' ');
    }
    push_flag_columns(&mut s, m.lparam);
    assert(s@ =~= spec_key_line(*m, key_name@));
    s
}

/// Where the `i`th newest message is drawn: the bottom line for the newest,
/// one line higher for each older one; none at or above the top.
pub fn line_y(cy_client: i32, cy_char: i32, i: i32) -> (r: Option<i32>)
    requires
        1 <= cy_char,
        0 <= cy_client,
        0 <= i,
        (cy_client / cy_char - 1 - i) * cy_char >= i32::MIN,
    ensures
        ({
            let y = (cy_client / cy_char - 1 - i) * cy_char;
            r == (if y > 0 { Some(y as i32) } else { None::<i32> })
        }),
{
    let q = cy_client / cy_char;
    proof {
        assert(0 <= q && q * cy_char <= cy_client) by (nonlinear_arith)
            requires q == cy_client / cy_char, cy_char >= 1, 0 <= cy_client;
        let k = q - 1 - i;
        assert(k * cy_char <= cy_client) by (nonlinear_arith)
            requires k <= q - 1, q * cy_char <= cy_client, cy_char >= 1;
    }
    let y = (q - 1 - i) * cy_char;
    if y > 0 { Some(y) } else { None }
}

/// The part of the window that scrolls up a line for each new message:
/// below the heading line, whole lines only.
pub fn scroll_rect(cx_client: i32, cy_client: i32, cy_char: i32) -> (r: Rect)
    requires
        1 <= cy_char,
        0 <= cy_client <= 65535,
    ensures
        r == (Rect { left: 0, top: cy_char, right: cx_client, bottom: (cy_char * (cy_client / cy_char)) as i32 }),
{
    let q = cy_client / cy_char;
    proof {
        assert(0 <= cy_char * q <= cy_client) by (nonlinear_arith)
            requires q == cy_client / cy_char, cy_char >= 1, 0 <= cy_client;
    }
    Rect { left: 0, top: cy_char, right: cx_client, bottom: cy_char * q }
}

/// The log never holds more messages than fit on the screen, and the last
/// one logged is the newest.
pub proof fn law_log_keeps_newest(s: Seq<KeyMsg>, m: KeyMsg, lines_max: int)
    requires
        lines_max >= 1,
    ensures
        kept(s.push(m), lines_max).len() <= lines_max,
        kept(s.push(m), lines_max).last() == m,
        kept(s.push(m), lines_max).len() == (if s.len() + 1 <= lines_max { (s.len() + 1) as int } else { lines_max }),
{
}

} // verus!
