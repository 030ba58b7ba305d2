//! The lines of text the programs put on screen, built from numbers and
//! names.
use vstd::prelude::*;
use vstd::string::StrSliceExecFns;
use crate::fmt::{signed_digits, pad_left, pad_right, hex_zero_padded, hex_digits, push_char, push_fill, push_str, push_str_left, push_signed, push_signed_right, push_hex, push_hex_zero_padded, format_signed};
use crate::words::{loword, hiword, loword_w, hiword_w, low_word, high_word, red_value, green_value, blue_value};

verus! {

/// A metric's value as the system metrics and device capabilities lists
/// show it: right-aligned in five characters (`{:5}`). The lists draw the
/// first five characters.
pub fn metric_value_text(value: i32) -> (s: String)
    ensures
        s@ == pad_left(signed_digits(value as int), 5),
{
    let mut s = String::new();
    push_signed_right(&mut s, value as i64, 5);
    assert(s@ =~= pad_left(signed_digits(value as int), 5));
    s
}

/// A number as the colour scroll bars' labels show it (`{}`).
pub fn number_text(value: i32) -> (s: String)
    ensures
        s@ == signed_digits(value as int),
{
    format_signed(value as i64)
}

/// Two upper-case hexadecimal digits of a byte (`{:02X}`).
pub open spec fn hex2(b: int) -> Seq<char> {
    hex_zero_padded(b as nat, 2)
}

/// The colour under the cursor: red, green and blue as two hexadecimal
/// digits each, framed by two blanks (`"  {:02X} {:02X} {:02X}  "`).
pub fn pixel_color_text(cr: u32) -> (s: String)
    ensures
        s@ == seq![' ', ' '] + hex2(cr as int % 256) + seq![' '] + hex2((cr as int / 256) % 256) + seq![' ']
            + hex2((cr as int / 65536) % 256) + seq![' ', ' '],
{
    let mut s = String::new();
    push_fill(&mut s, ' ', 2);
    push_hex_zero_padded(&mut s, red_value(cr) as u64, 2);
    push_char(&mut s, ' ');
    push_hex_zero_padded(&mut s, green_value(cr) as u64, 2);
    push_char(&mut s, ' ');
    push_hex_zero_padded(&mut s, blue_value(cr) as u64, 2);
    push_fill(&mut s, ' ', 2);
    assert(s@ =~= seq![' ', ' '] + hex2(cr as int % 256) + seq![' '] + hex2((cr as int / 256) % 256) + seq![' ']
        + hex2((cr as int / 65536) % 256) + seq![' ', ' ']);
    s
}

/// A line of the button message log: the message name in 16 columns,
/// then the high and low words of `wParam` and of `lParam` as four
/// hexadecimal digits each (`"{:<16}{:04X}-{:04X} {:04X}-{:04X}"`).
pub fn button_log_line(message: &str, wparam: usize, lparam: isize) -> (s: String)
    ensures
        s@ == pad_right(message@, 16)
            + hex_zero_padded(high_word(wparam as int) as nat, 4) + seq!['-']
            + hex_zero_padded(low_word(wparam as int) as nat, 4) + seq![' ']
            + hex_zero_padded(high_word(lparam as int) as nat, 4) + seq!['-']
            + hex_zero_padded(low_word(lparam as int) as nat, 4),
{
    let mut s = String::new();
    push_str_left(&mut s, message, 16);
    push_hex_zero_padded(&mut s, hiword_w(wparam) as u64, 4);
    push_char(&mut s, '-');
    push_hex_zero_padded(&mut s, loword_w(wparam) as u64, 4);
    push_char(&mut s, ' ');
    push_hex_zero_padded(&mut s, hiword(lparam) as u64, 4);
    push_char(&mut s, '-');
    push_hex_zero_padded(&mut s, loword(lparam) as u64, 4);
    assert(s@ =~= pad_right(message@, 16)
        + hex_zero_padded(high_word(wparam as int) as nat, 4) + seq!['-']
        + hex_zero_padded(low_word(wparam as int) as nat, 4) + seq![' ']
        + hex_zero_padded(high_word(lparam as int) as nat, 4) + seq!['-']
        + hex_zero_padded(low_word(lparam as int) as nat, 4));
    s
}

/// A line of the mapping mode table: the mode's name in 20 columns, then
/// the client area's left, right, top and bottom edges in logical units,
/// right-aligned in seven columns each (`"{:<20}{:>7}{:>7}{:>7}{:>7}"`).
pub fn mapping_line(name: &str, left: i32, right: i32, top: i32, bottom: i32) -> (s: String)
    ensures
        s@ == pad_right(name@, 20) + pad_left(signed_digits(left as int), 7) + pad_left(signed_digits(right as int), 7)
            + pad_left(signed_digits(top as int), 7) + pad_left(signed_digits(bottom as int), 7),
{
    let mut s = String::new();
    push_str_left(&mut s, name, 20);
    push_signed_right(&mut s, left as i64, 7);
    push_signed_right(&mut s, right as i64, 7);
    push_signed_right(&mut s, top as i64, 7);
    push_signed_right(&mut s, bottom as i64, 7);
    assert(s@ =~= pad_right(name@, 20) + pad_left(signed_digits(left as int), 7) + pad_left(signed_digits(right as int), 7)
        + pad_left(signed_digits(top as int), 7) + pad_left(signed_digits(bottom as int), 7));
    s
}

/// The title shown for a document: its name, or "untitled" when it has
/// none.
pub open spec fn shown_title(title: Seq<char>) -> Seq<char> {
    if title.len() == 0 { "untitled"@ } else { title }
}

fn push_title(out: &mut String, title: &str)
    ensures
        final(out)@ == old(out)@ + shown_title(title@),
{
    if title.unicode_len() == 0 {
        push_str(out, "untitled");
    } else {
        push_str(out, title);
    }
}

/// The notepad's caption: the program name, a dash and the document's
/// title (`"{} - {}"`).
pub fn caption_text(app_name: &str, title: &str) -> (s: String)
    ensures
        s@ == app_name@ + " - "@ + shown_title(title@),
{
    let mut s = String::new();
    push_str(&mut s, app_name);
    push_str(&mut s, " - ");
    push_title(&mut s, title);
    assert(s@ =~= app_name@ + " - "@ + shown_title(title@));
    s
}

/// The notepad's question before it drops changes
/// (`"Save current changes in {}?"`).
pub fn save_prompt_text(title: &str) -> (s: String)
    ensures
        s@ == "Save current changes in "@ + shown_title(title@) + seq!['?'],
{
    let mut s = String::new();
    push_str(&mut s, "Save current changes in ");
    push_title(&mut s, title);
    push_char(&mut s, '?');
    assert(s@ =~= "Save current changes in "@ + shown_title(title@) + seq!['?']);
    s
}

/// The icon program's caption: its title and the icon size
/// (`"{}  CX_ICON={} CY_ICON={}"`).
pub fn icon_caption(title: &str, cx_icon: i32, cy_icon: i32) -> (s: String)
    ensures
        s@ == title@ + "  CX_ICON="@ + signed_digits(cx_icon as int) + " CY_ICON="@ + signed_digits(cy_icon as int),
{
    let mut s = String::new();
    push_str(&mut s, title);
    push_str(&mut s, "  CX_ICON=");
    push_signed(&mut s, cx_icon as i64);
    push_str(&mut s, " CY_ICON=");
    push_signed(&mut s, cy_icon as i64);
    assert(s@ =~= title@ + "  CX_ICON="@ + signed_digits(cx_icon as int) + " CY_ICON="@ + signed_digits(cy_icon as int));
    s
}

/// The stock font program's header (`" {}: Face Name = {} CharSet = {}"`).
pub fn font_header(name: &str, face_name: &str, char_set: u8) -> (s: String)
    ensures
        s@ == " "@ + name@ + ": Face Name = "@ + face_name@ + " CharSet = "@ + signed_digits(char_set as int),
{
    let mut s = String::new();
    push_str(&mut s, " ");
    push_str(&mut s, name);
    push_str(&mut s, ": Face Name = ");
    push_str(&mut s, face_name);
    push_str(&mut s, " CharSet = ");
    push_signed(&mut s, char_set as i64);
    assert(s@ =~= " "@ + name@ + ": Face Name = "@ + face_name@ + " CharSet = "@ + signed_digits(char_set as int));
    s
}

/// The stock font program's message when a font gives no metrics
/// (`"GetTextMetricsW() failed. stock font name:{}"`).
pub fn font_failure_text(name: &str) -> (s: String)
    ensures
        s@ == "GetTextMetricsW() failed. stock font name:"@ + name@,
{
    let mut s = String::new();
    push_str(&mut s, "GetTextMetricsW() failed. stock font name:");
    push_str(&mut s, name);
    assert(s@ =~= "GetTextMetricsW() failed. stock font name:"@ + name@);
    s
}

/// A column heading of the character grid: a hexadecimal digit and a dash
/// (`"{:X}-"`).
pub fn column_heading(i: i32) -> (s: String)
    requires
        0 <= i,
    ensures
        s@ == hex_digits(i as nat).push('-'),
{
    let mut s = String::new();
    push_hex(&mut s, i as u64);
    push_char(&mut s, '-');
    assert(s@ =~= hex_digits(i as nat).push('-'));
    s
}

/// A row heading of the character grid: a dash and a hexadecimal digit
/// (`"-{:X}"`).
pub fn row_heading(i: i32) -> (s: String)
    requires
        0 <= i,
    ensures
        s@ == seq!['-'] + hex_digits(i as nat),
{
    let mut s = String::new();
    push_char(&mut s, '-');
    push_hex(&mut s, i as u64);
    assert(s@ =~= seq!['-'] + hex_digits(i as nat));
    s
}

/// The screen size message in English.
pub fn screen_size_text(cx_screen: i32, cy_screen: i32) -> (s: String)
    ensures
        s@ == "The screen is "@ + signed_digits(cx_screen as int) + " pixcels wide by "@
            + signed_digits(cy_screen as int) + " pixcels high."@,
{
    let mut s = String::new();
    push_str(&mut s, "The screen is ");
    push_signed(&mut s, cx_screen as i64);
    push_str(&mut s, " pixcels wide by ");
    push_signed(&mut s, cy_screen as i64);
    push_str(&mut s, " pixcels high.");
    assert(s@ =~= "The screen is "@ + signed_digits(cx_screen as int) + " pixcels wide by "@
        + signed_digits(cy_screen as int) + " pixcels high."@);
    s
}

/// The screen size message in Japanese.
pub fn screen_size_text_ja(cx_screen: i32, cy_screen: i32) -> (s: String)
    ensures
        s@ == "幅: "@ + signed_digits(cx_screen as int) + " ピクセル、高さ: "@
            + signed_digits(cy_screen as int) + " ピクセル"@,
{
    let mut s = String::new();
    push_str(&mut s, "幅: ");
    push_signed(&mut s, cx_screen as i64);
    push_str(&mut s, " ピクセル、高さ: ");
    push_signed(&mut s, cy_screen as i64);
    push_str(&mut s, " ピクセル");
    assert(s@ =~= "幅: "@ + signed_digits(cx_screen as int) + " ピクセル、高さ: "@
        + signed_digits(cy_screen as int) + " ピクセル"@);
    s
}

} // verus!
