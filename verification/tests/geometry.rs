use petzold::environ::environment_names;
use petzold::fonts::{
    char_cell, choose_font_flags, face_field, font_style, font_width, grid_cell, grid_lines, heading_positions,
    stock_font, FontStyle, EZ_ATTR_BOLD, EZ_ATTR_STRIKEOUT, SYSTEM_FIXED_FONT,
};
use petzold::geom::{Placement, Point, Rect};
use petzold::layout::{
    caps_width, clover_ellipses, color_update, color_window_size, figure_points, icon_tiles, line_demo,
    line_height, row_x, row_y, table_columns, table_width, Bezier, MK_LBUTTON, MK_RBUTTON,
};
use petzold::owndraw::{arrows, button_placements, button_size, focus_rect, resized_window, ID_LARGER, ID_SMALLER};
use petzold::panels::{
    color_areas, color_controls, dir_candidates, gallery_button, gallery_placement, join_path, log_line_position,
    log_rect, mixed_color, static_color, viewer_layout, BS_GROUPBOX,
};
use petzold::randrect::{color_from_draws, ordered_rect, random_ordered_rect, random_rect, rect_from_draws, thread_color};

#[test]
fn text_metrics_columns() {
    assert_eq!(caps_width(8, 1), 12);
    assert_eq!(caps_width(8, 0), 8);
    assert_eq!(caps_width(7, 1), 10);
    assert_eq!(line_height(16, 2), 18);
    assert_eq!(table_columns(22, 12, 8), (264, 584));
    assert_eq!(table_width(8, 12), 584);
    assert_eq!(row_y(18, 5, 2), 54);
    assert_eq!(row_x(8, 3), -16);
}

#[test]
fn fill_mode_figure_scales_to_the_client_area() {
    let (a, b) = figure_points(400, 200);
    assert_eq!(a[0], Point { x: 20, y: 140 });
    assert_eq!(a[3], Point { x: 180, y: 20 });
    assert_eq!(b[0], Point { x: 220, y: 140 });
    assert_eq!(a.len(), 10);
}

#[test]
fn bezier_drags_only_its_control_points() {
    let mut bz = Bezier::new(400, 200);
    assert_eq!(bz.apt[0], Point { x: 100, y: 100 });
    assert_eq!(bz.apt[2], Point { x: 200, y: 150 });
    assert!(bz.drag(MK_LBUTTON, 0x0020_0010));
    assert_eq!(bz.apt[1], Point { x: 16, y: 32 });
    assert!(bz.drag(MK_RBUTTON, 0x0030_0040));
    assert_eq!(bz.apt[2], Point { x: 64, y: 48 });
    assert!(!bz.drag(0, 0x0001_0001));
    assert_eq!(bz.apt[0], Point { x: 100, y: 100 });
    assert_eq!(bz.apt[3], Point { x: 300, y: 100 });
    let (l1, _l2) = bz.control_lines();
    assert_eq!(l1.1, Point { x: 16, y: 32 });
}

#[test]
fn line_demo_and_clover_shapes() {
    let d = line_demo(800, 400);
    assert_eq!(d.frame, Rect { left: 100, top: 50, right: 700, bottom: 350 });
    assert_eq!(d.round, Rect { left: 200, top: 100, right: 600, bottom: 300 });
    assert_eq!(d.corner, Point { x: 200, y: 100 });
    assert_eq!(d.diagonals[1], (Point { x: 0, y: 400 }, Point { x: 800, y: 0 }));
    let c = clover_ellipses(600, 300);
    assert_eq!(c[0], Rect { left: 0, top: 100, right: 300, bottom: 200 });
    assert_eq!(c[3], Rect { left: 200, top: 150, right: 400, bottom: 300 });
}

#[test]
fn icons_tile_the_client_area() {
    let t = icon_tiles(70, 40, 32, 32);
    assert_eq!(t.len(), 3 * 2);
    assert_eq!(t[0], Point { x: 0, y: 0 });
    assert_eq!(t[2], Point { x: 64, y: 0 });
    assert_eq!(t[3], Point { x: 0, y: 32 });
    assert!(icon_tiles(0, 40, 32, 32).is_empty());
}

#[test]
fn color_window() {
    assert_eq!(color_window_size(1, 1, 23, 8, 16), (98, 57));
    assert_eq!(color_update(5, 5), (false, 5));
    assert_eq!(color_update(6, 5), (true, 6));
}

#[test]
fn random_rectangles_stay_in_the_client_area() {
    assert_eq!(rect_from_draws(-7, 25, 13, -1, 10, 20), Rect { left: -7, top: 5, right: 3, bottom: -1 });
    assert_eq!(color_from_draws(257, 512, 255), 1 | (0 << 8) | (255 << 16));
    assert_eq!(ordered_rect(9, -3, 5, 2, 10, 10), Rect { left: -3, top: 2, right: 9, bottom: 5 });
    assert_eq!(thread_color(-1, 256, 0), 0xFF | (1 << 8));
    assert!(random_rect(0, 10).is_none());
    assert!(random_ordered_rect(10, 0).is_none());
    for _ in 0..100 {
        let (r, c) = random_rect(50, 30).unwrap();
        assert!(r.left.abs() < 50 && r.right.abs() < 50 && r.top.abs() < 30 && r.bottom.abs() < 30);
        assert!(c < 0x100_0000);
        let (r, _) = random_ordered_rect(50, 30).unwrap();
        assert!(r.left <= r.right && r.top <= r.bottom);
    }
}

#[test]
fn easy_font_fields() {
    assert_eq!(
        font_style(EZ_ATTR_BOLD | EZ_ATTR_STRIKEOUT),
        FontStyle { weight: 700, italic: 0, underline: 0, strike_out: 1 }
    );
    assert_eq!(font_style(0).weight, 0);
    let f = face_field("Arial");
    assert_eq!(f.len(), 32);
    assert_eq!(&f[..5], &[65, 114, 105, 97, 108]);
    assert!(f[5..].iter().all(|&u| u == 0));
    let long = "x".repeat(33);
    assert!(face_field(&long).iter().all(|&u| u == 0));
    let exact = "y".repeat(32);
    assert!(face_field(&exact).iter().all(|&u| u == 'y' as u16));
    assert_eq!(font_width(8, -30, 60), 4);
    assert_eq!(choose_font_flags(), 0x40 | 0x1 | 0x100);
}

#[test]
fn stock_font_grid() {
    assert_eq!(stock_font(5), (SYSTEM_FIXED_FONT, "SYSTEM_FIXED_FONT"));
    assert_eq!(grid_cell(8, 16, 16), (32, 19));
    assert_eq!(grid_cell(10, 12, 16), (30, 19));
    let lines = grid_lines(10, 20);
    assert_eq!(lines.len(), 34);
    assert_eq!(lines[0], (Point { x: 20, y: 40 }, Point { x: 20, y: 380 }));
    assert_eq!(lines[1], (Point { x: 10, y: 60 }, Point { x: 180, y: 60 }));
    assert_eq!(heading_positions(1, 10, 20), (Point { x: 35, y: 42 }, Point { x: 15, y: 82 }));
    assert_eq!(char_cell(4, 1, 10, 20), (Point { x: 65, y: 82 }, 65));
}

#[test]
fn owner_drawn_buttons() {
    assert_eq!(button_size(8, 16), (64, 64));
    let (s, l) = button_placements(400, 300, 64, 64);
    assert_eq!(s, Placement { x: 104, y: 118, width: 64, height: 64 });
    assert_eq!(l, Placement { x: 232, y: 118, width: 64, height: 64 });
    let rc = Rect { left: 100, top: 100, right: 500, bottom: 400 };
    assert_eq!(resized_window(rc, ID_SMALLER, 400, 300), Placement { x: 120, y: 115, width: 360, height: 270 });
    assert_eq!(resized_window(rc, ID_LARGER, 400, 300), Placement { x: 80, y: 85, width: 440, height: 330 });
    assert_eq!(resized_window(rc, 7, 400, 300), Placement { x: 100, y: 100, width: 400, height: 300 });
    let a = arrows(ID_SMALLER, 64, 64);
    assert_eq!(a.len(), 4);
    assert_eq!(a[0], vec![Point { x: 24, y: 8 }, Point { x: 40, y: 8 }, Point { x: 32, y: 24 }]);
    assert!(arrows(9, 64, 64).is_empty());
    assert_eq!(focus_rect(Rect { left: 0, top: 0, right: 64, bottom: 32 }), Rect { left: 4, top: 2, right: 60, bottom: 30 });
}

#[test]
fn button_gallery_layout() {
    assert_eq!(gallery_button(7), (BS_GROUPBOX, "GROUPBOX"));
    assert_eq!(gallery_placement(2, 8, 16), Placement { x: 8, y: 80, width: 160, height: 28 });
    assert_eq!(log_rect(8, 16, 640, 480), Rect { left: 192, top: 32, right: 640, bottom: 480 });
    assert_eq!(log_line_position(8, 16, 100), Point { x: 192, y: 80 });
}

#[test]
fn color_scroll_layout() {
    let c = color_controls(1, 700, 400, 20);
    assert_eq!(c.scroll, Placement { x: 150, y: 40, width: 50, height: 320 });
    assert_eq!(c.label, Placement { x: 125, y: 10, width: 100, height: 20 });
    assert_eq!(c.value, Placement { x: 125, y: 370, width: 100, height: 20 });
    assert_eq!(color_areas(700, 400), (Rect { left: 350, top: 0, right: 700, bottom: 400 }, Placement { x: 0, y: 0, width: 350, height: 400 }));
    assert_eq!(static_color(4), Some(0x0000_FF00));
    assert_eq!(static_color(2), None);
    assert_eq!(mixed_color([1, 2, 3]), 1 | (2 << 8) | (3 << 16));
}

#[test]
fn file_viewer_paths() {
    let w = |s: &str| -> Vec<u16> { s.encode_utf16().collect() };
    assert_eq!(join_path(&w("C:\\dir"), &w("a.txt")), w("C:\\dir\\a.txt"));
    assert_eq!(join_path(&w("C:\\"), &w("a.txt")), w("C:\\a.txt"));
    let (first, second) = dir_candidates(&w("[sub]"));
    assert_eq!(first, w("sub"));
    assert_eq!(second, w("u:"));
    let (first, second) = dir_candidates(&w("[-d-]"));
    assert_eq!(first, w("-d-"));
    assert_eq!(second, w("d:"));
    let (first, second) = dir_candidates(&w("[]"));
    assert!(first.is_empty() && second.is_empty());
    let (list, text, origin) = viewer_layout(8, 16, 17, 260);
    assert_eq!(list, Placement { x: 8, y: 48, width: 121, height: 160 });
    assert_eq!(text, Placement { x: 8, y: 16, width: 2080, height: 16 });
    assert_eq!(origin, Point { x: 160, y: 48 });
}

#[test]
fn environment_names_without_equals_pass_over_the_next_string() {
    let block: Vec<u16> = "AB\0C=1\0D=2\0\0".encode_utf16().collect();
    let names = environment_names(&block);
    let ab: Vec<u16> = "AB".encode_utf16().collect();
    let d: Vec<u16> = "D".encode_utf16().collect();
    assert_eq!(names, vec![ab, d]);
}

#[test]
fn environment_names_are_the_strings_up_to_their_equals() {
    let block: Vec<u16> = "PATH=C:\\bin\0HOME=D:\\\0=C:=C:\\x\0\0".encode_utf16().collect();
    let names = environment_names(&block);
    let strings = petzold::environ::environment_strings(&block);
    assert_eq!(names.len(), strings.len());
    for (n, s) in names.iter().zip(strings.iter()) {
        assert_eq!(&s[..n.len()], &n[..]);
        assert_eq!(s[n.len()], '=' as u16);
    }
    assert!(names[2].is_empty());
}

#[test]
fn color_dialog_control_ids() {
    assert_eq!(petzold::panels::color_dialog_ids(10), (0, 13));
    assert_eq!(petzold::panels::color_dialog_ids(12), (2, 15));
}

#[test]
fn device_capabilities_table() {
    assert_eq!(petzold::layout::device_cap(0), (4, "HORZSIZE", "Width in millimeters:"));
    assert_eq!(petzold::layout::device_cap(15), (88, "LOGPIXELSX", "Horizontal dots per inch:"));
    assert_eq!(petzold::layout::device_cap(19), (108, "COLORRES", "Actual color resolution:"));
}

#[test]
fn mapping_modes_table() {
    assert_eq!(petzold::layout::mapping_mode(0), (1, "TEXT (pixels)", 3));
    assert_eq!(petzold::layout::mapping_mode(5), (6, "TWIPS (1/1440 in)", 8));
}
