use petzold::blockout::{BlockAction, BlockOut};
use petzold::checker::{block_size, cell_rect, child_id, child_placement, child_toggle, Checker, Click};
use petzold::connect::{Connect, MK_LBUTTON};
use petzold::geom::{Placement, Point, Rect};
use petzold::hexcalc::{calc_it, display_text, key_code, CalcAction, HexCalc, KeySource, MAXDWORD, VK_BACK, VK_ESCAPE};
use petzold::keylog::{key_line, line_y, scroll_rect, KeyLog, KeyMsg, WM_CHAR, WM_KEYDOWN};
use petzold::typer::{Typer, TyperPaint, SPACE, VK_DELETE, VK_END, VK_HOME};

fn press_all(c: &mut HexCalc, keys: &str) -> CalcAction {
    let mut last = CalcAction::Nothing;
    for b in keys.bytes() {
        last = c.press(b);
    }
    last
}

#[test]
fn calculator_adds_in_hex() {
    let mut c = HexCalc::new();
    press_all(&mut c, "1F+1=");
    assert_eq!(c.number, 0x20);
    assert_eq!(display_text(c.number), "20");
}

#[test]
fn calculator_backspace_undoes_a_digit() {
    let mut c = HexCalc::new();
    press_all(&mut c, "ABC");
    assert_eq!(c.press(VK_BACK), CalcAction::Show(0xAB));
    assert_eq!(c.number, 0xAB);
}

#[test]
fn calculator_escape_clears() {
    let mut c = HexCalc::new();
    press_all(&mut c, "123");
    assert_eq!(c.press(VK_ESCAPE), CalcAction::Show(0));
}

#[test]
fn calculator_refuses_a_ninth_digit() {
    let mut c = HexCalc::new();
    press_all(&mut c, "FFFFFFFF");
    assert_eq!(c.number, 0xFFFF_FFFF);
    assert_eq!(c.press(b'1'), CalcAction::Beep);
    assert_eq!(c.number, 0xFFFF_FFFF);
}

#[test]
fn calculator_divides_by_zero_to_max() {
    assert_eq!(calc_it(10, b'/', 0), MAXDWORD);
    assert_eq!(calc_it(10, b'%', 0), MAXDWORD);
    assert_eq!(calc_it(10, b'/', 3), 3);
    assert_eq!(calc_it(1, b'<', 4), 16);
    assert_eq!(calc_it(0, b'-', 1), 0xFFFF_FFFF);
    assert_eq!(calc_it(5, b'?', 1), 0);
}

#[test]
fn calculator_key_translation() {
    assert_eq!(key_code(KeySource::KeyDown, 0x25), VK_BACK);
    assert_eq!(key_code(KeySource::Char, 0x0D), b'=');
    assert_eq!(key_code(KeySource::Char, b'a' as usize), b'A');
    let mut c = HexCalc::new();
    let r = c.handle(KeySource::Char, b'z' as usize, false);
    assert!(r.unhandled);
    assert_eq!(r.action, CalcAction::Beep);
    let r = c.handle(KeySource::Char, b'7' as usize, true);
    assert!(r.flash_button);
    assert_eq!(r.action, CalcAction::Show(7));
    assert!(c.faults_on(b'+') == false);
}

#[test]
fn checker_click_toggles_its_box_and_twice_restores() {
    let (cx, cy) = block_size(500, 250);
    assert_eq!((cx, cy), (100, 50));
    let mut c = Checker::new();
    let r = c.click(250, 120, cx, cy);
    assert_eq!(r, Click::Toggled { x: 2, y: 2, rect: Rect { left: 200, top: 100, right: 300, bottom: 150 } });
    assert!(c.is_marked(2, 2));
    c.click(250, 120, cx, cy);
    assert!(!c.is_marked(2, 2));
    assert_eq!(c.click(600, 10, cx, cy), Click::Beep);
    assert_eq!(cell_rect(1, 3, 10, 20), Rect { left: 10, top: 60, right: 20, bottom: 80 });
}

#[test]
fn checker_children() {
    assert_eq!(child_id(3, 2), 2 * 256 + 3);
    assert_eq!(child_placement(3, 2, 10, 20), Placement { x: 30, y: 40, width: 10, height: 20 });
    assert_eq!(child_toggle(0), 1);
    assert_eq!(child_toggle(child_toggle(0)), 0);
}

#[test]
fn block_out_drag_makes_a_box() {
    let mut b = BlockOut::new();
    let acts = b.button_down(0x0014_000A);
    assert_eq!(acts[1], BlockAction::CaptureMouse);
    b.mouse_move(0x0050_0060);
    b.button_up(0x0064_00C8);
    let (filled, outline) = b.paint();
    assert_eq!(filled, Some(Rect { left: 10, top: 20, right: 200, bottom: 100 }));
    assert_eq!(outline, None);
}

#[test]
fn connect_keeps_points_while_the_button_is_held() {
    let mut c = Connect::new();
    c.button_down();
    assert_eq!(c.mouse_move(MK_LBUTTON, 0x0002_0001), Some(Point { x: 1, y: 2 }));
    assert_eq!(c.mouse_move(0, 0x0004_0003), None);
    c.mouse_move(MK_LBUTTON, 0x0004_0003);
    c.mouse_move(MK_LBUTTON, 0x0006_0005);
    let lines = c.lines();
    assert_eq!(lines.len(), 3);
    assert_eq!(lines[0], (Point { x: 1, y: 2 }, Point { x: 3, y: 4 }));
    assert_eq!(lines[2], (Point { x: 3, y: 4 }, Point { x: 5, y: 6 }));
}

#[test]
fn key_log_keeps_the_newest_lines() {
    let mut log = KeyLog::new(100, 40);
    assert_eq!(log.lines_max, 2);
    for i in 0..5usize {
        log.record(KeyMsg { message: WM_KEYDOWN, wparam: i, lparam: 0 });
    }
    assert_eq!(log.msgs.len(), 2);
    assert_eq!(log.msgs[1].wparam, 4);
    assert_eq!(log.msgs[0].wparam, 3);
}

#[test]
fn key_lines_match_the_formatted_layout() {
    let m = KeyMsg { message: WM_KEYDOWN, wparam: 65, lparam: 0x001E_0001 };
    let s = key_line(&m, "A");
    let expected = format!("{:<13} {:3} {:<15}{}{:>6} {:>4} {:>3} {:>3} {:>4} {:>4}",
        "WM_KEYDOWN", 65, "A", ' ', 1, 0x1E, "No", "No", "Up", "Down");
    assert_eq!(s, expected);
    let c = KeyMsg { message: WM_CHAR, wparam: 0x61, lparam: 0xC01E_0001u32 as i32 as isize };
    let s = key_line(&c, "");
    let expected = format!("{:<13}            {:#06X}{}{} {:>6} {:>4} {:>3} {:>3} {:>4} {:>4}",
        "WM_CHAR", 0x61, " ", "a", 1, 0x1E, "No", "No", "Down", "Up");
    assert_eq!(s, expected);
}

#[test]
fn key_log_geometry() {
    assert_eq!(line_y(100, 10, 0), Some(90));
    assert_eq!(line_y(100, 10, 9), None);
    assert_eq!(scroll_rect(300, 105, 10), Rect { left: 0, top: 10, right: 300, bottom: 100 });
}

#[test]
fn typer_types_and_moves() {
    let mut t = Typer::new(80, 30, 8, 10);
    assert_eq!((t.cx_buffer, t.cy_buffer), (10, 3));
    let p = t.char_typed('a' as u32, 1);
    assert_eq!(p[0], TyperPaint::Cell { x: 0, y: 0 });
    assert_eq!(t.buffer[0], 'a' as u16);
    assert_eq!((t.x_caret, t.y_caret), (1, 0));
    t.key_down(VK_END);
    assert_eq!(t.x_caret, 9);
    t.key_down(VK_HOME);
    assert_eq!(t.x_caret, 0);
    t.key_down(VK_DELETE);
    assert_eq!(t.buffer[0], SPACE);
    assert_eq!(t.caret_pixels(), (0, 0));
}

#[test]
fn typer_escape_blanks_the_screen() {
    let mut t = Typer::new(40, 20, 8, 10);
    t.char_typed('x' as u32, 3);
    t.char_typed(0x1B, 1);
    assert!(t.buffer.iter().all(|&c| c == SPACE));
    assert_eq!((t.x_caret, t.y_caret), (0, 0));
}
