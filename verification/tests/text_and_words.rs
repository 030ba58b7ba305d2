use petzold::fmt::{format_hex, format_signed, push_hex_prefixed, push_signed_right, push_str_left, hex_len, dec_len, digit_to_char};
use petzold::text::{
    button_log_line, caption_text, column_heading, font_failure_text, font_header, icon_caption, mapping_line,
    metric_value_text, number_text, pixel_color_text, row_heading, save_prompt_text, screen_size_text,
    screen_size_text_ja,
};
use petzold::words::{blue_value, green_value, hiword, hiword_w, loword, loword_w, makelong, red_value, rgb, signed_coordinate};
use petzold::wide::{from_wide, to_wide_chars};
use petzold::arith::{div_i32, rem_i32};

#[test]
fn hex_text_of_numbers() {
    assert_eq!(format_hex(255), "FF");
    assert_eq!(format_hex(0), "0");
    assert_eq!(format_hex(0xDEAD_BEEF), "DEADBEEF");
    assert_eq!(hex_len(0x1000), 4);
    assert_eq!(dec_len(12345), 5);
    assert_eq!(digit_to_char(11), 'B');
}

#[test]
fn signed_text_of_numbers() {
    assert_eq!(format_signed(-42), "-42");
    assert_eq!(format_signed(0), "0");
    assert_eq!(format_signed(i64::MIN), "-9223372036854775808");
    let mut s = String::new();
    push_signed_right(&mut s, -7, 5);
    assert_eq!(s, "   -7");
}

#[test]
fn prefixed_hex_matches_std_formatting() {
    let mut s = String::new();
    push_hex_prefixed(&mut s, 0x41, 6);
    assert_eq!(s, format!("{:#06X}", 0x41));
    let mut t = String::new();
    push_str_left(&mut t, "ab", 5);
    assert_eq!(t, format!("{:<5}", "ab"));
}

#[test]
fn metric_and_number_texts() {
    assert_eq!(metric_value_text(42), "   42");
    assert_eq!(metric_value_text(-1234), "-1234");
    assert_eq!(metric_value_text(123456), "123456");
    assert_eq!(number_text(255), "255");
}

#[test]
fn pixel_color_text_shows_red_green_blue() {
    assert_eq!(pixel_color_text(rgb(0x12, 0x34, 0xAB)), "  12 34 AB  ");
}

#[test]
fn button_log_line_layout() {
    let s = button_log_line("COMMAND", 0x0001_0002, 0x0003_0004);
    assert_eq!(s, format!("{:<16}{:04X}-{:04X} {:04X}-{:04X}", "COMMAND", 1, 2, 3, 4));
}

#[test]
fn mapping_line_layout() {
    let s = mapping_line("TEXT (pixels)", 0, 640, 0, 480);
    assert_eq!(s, format!("{:<20}{:>7}{:>7}{:>7}{:>7}", "TEXT (pixels)", 0, 640, 0, 480));
}

#[test]
fn captions_name_untitled_documents() {
    assert_eq!(caption_text("PopPad", ""), "PopPad - untitled");
    assert_eq!(caption_text("PopPad", "a.txt"), "PopPad - a.txt");
    assert_eq!(save_prompt_text(""), "Save current changes in untitled?");
    assert_eq!(save_prompt_text("notes.txt"), "Save current changes in notes.txt?");
}

#[test]
fn other_captions() {
    assert_eq!(icon_caption("IconDemo", 32, 32), "IconDemo  CX_ICON=32 CY_ICON=32");
    assert_eq!(font_header("SYSTEM_FONT", "System", 0), " SYSTEM_FONT: Face Name = System CharSet = 0");
    assert_eq!(font_failure_text("OEM_FIXED_FONT"), "GetTextMetricsW() failed. stock font name:OEM_FIXED_FONT");
    assert_eq!(column_heading(10), "A-");
    assert_eq!(row_heading(15), "-F");
    assert_eq!(screen_size_text(1920, 1080), "The screen is 1920 pixcels wide by 1080 pixcels high.");
    assert_eq!(screen_size_text_ja(800, 600), "幅: 800 ピクセル、高さ: 600 ピクセル");
}

#[test]
fn message_words() {
    assert_eq!(loword(0x0012_0034), 0x34);
    assert_eq!(hiword(0x0012_0034), 0x12);
    assert_eq!(loword(-1), 0xFFFF);
    assert_eq!(hiword(-1), 0xFFFF);
    assert_eq!(loword_w(0xABCD_1234), 0x1234);
    assert_eq!(hiword_w(0xABCD_1234), 0xABCD);
    assert_eq!(signed_coordinate(0xFFFF), -1);
    assert_eq!(signed_coordinate(100), 100);
    assert_eq!(makelong(1, 0x100), 0x0100_0001);
}

#[test]
fn color_parts_read_back() {
    let c = rgb(10, 20, 30);
    assert_eq!(c, 10 | (20 << 8) | (30 << 16));
    assert_eq!(red_value(c), 10);
    assert_eq!(green_value(c), 20);
    assert_eq!(blue_value(c), 30);
    assert_eq!(rgb(-1, 0, 0), 0xFF);
}

#[test]
fn signed_division_truncates() {
    assert_eq!(div_i32(-7, 2), -3);
    assert_eq!(rem_i32(-7, 2), -1);
    assert_eq!(div_i32(7, -2), -3);
    assert_eq!(rem_i32(7, -2), 1);
    assert_eq!(div_i32(i32::MIN, 1), i32::MIN);
}

#[test]
fn wide_text_round_trip() {
    let s = "Hello, 世界 🎉";
    let w = to_wide_chars(s);
    assert_eq!(w.last(), Some(&0));
    let expected: Vec<u16> = s.encode_utf16().chain(std::iter::once(0)).collect();
    assert_eq!(w, expected);
    assert_eq!(from_wide(&w), s);
}

#[test]
fn wide_text_stops_at_nul_and_replaces_lone_surrogates() {
    assert_eq!(from_wide(&[0x41, 0x42, 0, 0x43]), "AB");
    assert_eq!(from_wide(&[0xD800, 0x41]), "\u{FFFD}A");
    assert_eq!(from_wide(&[]), "");
}
