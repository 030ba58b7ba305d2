use petzold::clock::{display_hour, hand_angles, hands_changed, segments, tick_size, time_display, Glyph};
use petzold::dialogs::{
    about_command_ends, about_menu_command, ellipse_button_fires, figure_color, figure_of, Choice, ColorDialog,
    DialogReply, Figure, MenuAction, IDCANCEL, IDC_BLACK, IDC_ELLIPSE, IDC_RECT, IDC_WHITE, IDOK, VK_SPACE,
};
use petzold::environ::{environment_names, environment_strings};
use petzold::menu::{
    background_brush, beeper_color, menu_layout, MenuCommand, MenuDemo, MenuEntry, StockBrush, IDM_BKGND_GRAY,
    IDM_BKGND_WHITE, IDM_FILE_OPEN, IDM_TIMER_START, IDM_TIMER_STOP,
};
use petzold::popad::{
    edit_menu_state, edit_note, editor_command, file_dialog_flags, file_filter, may_discard, save_answer,
    search_menu_enabled, EditNote, EditRequest, Editor, EditorCommand, EN_MAXTEXT, EN_UPDATE, IDNO, IDYES,
    IDM_EDIT_CUT, IDM_FILE_NEW, IDM_SEARCH_NEXT,
};
use petzold::scroll::{color_scroll_held, color_scroll_unheld, next_focus, paint_rows, scroll_fonts, scroll_rows, SB_LINEDOWN, SB_PAGEDOWN, SB_PAGEUP, SB_THUMBPOSITION, SB_TOP};

#[test]
fn color_dialog_ok_commits_and_cancel_discards() {
    let mut d = ColorDialog::new();
    assert_eq!(d.current, Choice { color: IDC_BLACK, figure: IDC_RECT });
    d.open();
    assert_eq!(d.command(IDC_BLACK + 4), DialogReply::Select { first: IDC_BLACK, last: IDC_WHITE, id: IDC_BLACK + 4 });
    d.command(IDC_ELLIPSE);
    assert_eq!(d.command(IDCANCEL), DialogReply::End { confirmed: false });
    assert_eq!(d.current, Choice { color: IDC_BLACK, figure: IDC_RECT });
    d.open();
    d.command(IDC_BLACK + 4);
    d.command(IDC_ELLIPSE);
    assert_eq!(d.command(IDOK), DialogReply::End { confirmed: true });
    assert_eq!(d.current, Choice { color: IDC_BLACK + 4, figure: IDC_ELLIPSE });
    assert_eq!(d.command(999), DialogReply::Unhandled);
}

#[test]
fn color_dialog_colors_and_figures() {
    assert_eq!(figure_color(IDC_BLACK), 0);
    assert_eq!(figure_color(IDC_BLACK + 1), 0x00FF_0000);
    assert_eq!(figure_color(IDC_BLACK + 4), 0x0000_00FF);
    assert_eq!(figure_color(IDC_WHITE), 0x00FF_FFFF);
    assert_eq!(figure_of(IDC_RECT), Figure::Rectangle);
    assert_eq!(figure_of(IDC_ELLIPSE), Figure::Ellipse);
}

#[test]
fn about_boxes() {
    assert_eq!(about_menu_command(104), MenuAction::ShowAbout { vs_template: true });
    assert_eq!(about_menu_command(40001), MenuAction::ShowAbout { vs_template: false });
    assert_eq!(about_menu_command(105), MenuAction::Close);
    assert_eq!(about_menu_command(7), MenuAction::Ignore);
    assert!(about_command_ends(IDOK));
    assert!(about_command_ends(IDCANCEL));
    assert!(!about_command_ends(3));
    assert!(ellipse_button_fires(false, 0));
    assert!(ellipse_button_fires(true, VK_SPACE));
    assert!(!ellipse_button_fires(true, 0x41));
}

#[test]
fn editor_needs_saving_after_a_change() {
    let mut e = Editor::new();
    assert!(!e.notify(edit_note(true, 1, EN_UPDATE)));
    assert!(e.need_save);
    assert!(e.notify(edit_note(true, 1, EN_MAXTEXT)));
    assert_eq!(edit_note(false, 1, EN_UPDATE), EditNote::Other);
    assert_eq!(edit_note(true, 2, EN_UPDATE), EditNote::Other);
    e.file_new();
    assert!(!e.need_save);
    assert!(e.title_name.is_empty());
    e.file_opened(Some(("C:\\a.txt".to_string(), "a.txt".to_string())));
    assert_eq!(e.title_name, "a.txt");
    e.file_opened(None);
    assert_eq!(e.file_name, "C:\\a.txt");
}

#[test]
fn unsaved_changes_are_not_dropped_without_asking() {
    assert!(may_discard(false, IDCANCEL));
    assert!(!may_discard(true, save_answer(IDCANCEL, true)));
    assert!(!may_discard(true, save_answer(IDYES, false)));
    assert!(may_discard(true, save_answer(IDYES, true)));
    assert!(may_discard(true, save_answer(IDNO, false)));
}

#[test]
fn editor_menus_and_commands() {
    let s = edit_menu_state(true, false, 3, 3);
    assert!(s.undo && !s.paste && !s.selection);
    assert!(edit_menu_state(false, true, 1, 4).selection);
    assert!(search_menu_enabled(false));
    assert!(!search_menu_enabled(true));
    assert_eq!(editor_command(IDM_FILE_NEW), EditorCommand::New);
    assert_eq!(editor_command(IDM_EDIT_CUT), EditorCommand::Edit(EditRequest::Cut));
    assert_eq!(editor_command(IDM_SEARCH_NEXT), EditorCommand::Search);
    assert_eq!(editor_command(1), EditorCommand::Default);
    let mut e = Editor::new();
    e.find_dialog_open = true;
    e.find_message(0x40);
    assert!(!e.find_dialog_open);
}

#[test]
fn file_dialog_filter_and_flags() {
    let f = file_filter();
    let expected: Vec<u16> = "Text Files (*.TXT)\0*.txt\0Ascii Files (*.ASC)\0*.asc\0All Files (*.*)\0*.*\0\0"
        .encode_utf16()
        .collect();
    assert_eq!(f, expected);
    assert_eq!(file_dialog_flags(true), 0x2);
    assert_eq!(file_dialog_flags(false), 0x4 | 0x2000);
}

#[test]
fn menu_demo_background_and_timer() {
    let mut d = MenuDemo::new();
    assert_eq!(d.command(IDM_FILE_OPEN), MenuCommand::Beep);
    assert_eq!(
        d.command(IDM_BKGND_GRAY),
        MenuCommand::Background { previous: IDM_BKGND_WHITE, id: IDM_BKGND_GRAY, brush: StockBrush::Gray }
    );
    assert_eq!(d.selection, IDM_BKGND_GRAY);
    assert_eq!(d.command(IDM_TIMER_START), MenuCommand::TimerStart);
    assert_eq!(d.timer_items(), (true, false));
    d.timer_started(true);
    assert_eq!(d.timer_items(), (false, true));
    assert_eq!(d.command(IDM_TIMER_STOP), MenuCommand::TimerStop);
    assert_eq!(d.timer_items(), (true, false));
    assert_eq!(background_brush(IDM_BKGND_WHITE), StockBrush::White);
}

#[test]
fn menu_layout_has_five_popups() {
    let m = menu_layout();
    assert_eq!(m.len(), 5);
    assert_eq!(m[0].label, "ファイル(&F)");
    assert_eq!(m[0].entries.len(), 6);
    assert!(matches!(m[0].entries[4], MenuEntry::Separator));
    assert!(matches!(m[2].entries[0], MenuEntry::Item { checked: true, .. }));
    assert!(matches!(m[3].entries[1], MenuEntry::Item { grayed: true, .. }));
}

#[test]
fn beeper_alternates_red_and_blue() {
    assert_eq!(beeper_color(true), 0x0000_00FF);
    assert_eq!(beeper_color(false), 0x00FF_0000);
}

#[test]
fn clock_hands_and_digits() {
    assert_eq!(hand_angles(3, 30, 15), [90 + 15, 180, 90]);
    assert!(hands_changed(3, 30, 3, 31));
    assert!(!hands_changed(3, 30, 3, 30));
    assert_eq!(tick_size(5), 100);
    assert_eq!(tick_size(6), 33);
    assert_eq!(display_hour(0, false), 12);
    assert_eq!(display_hour(13, false), 13);
    assert_eq!(display_hour(0, true), 0);
    assert_eq!(segments(8), [true; 7]);
    let g = time_display(9, 5, 7, true, true);
    assert_eq!(g[0], Glyph::Digit { digit: 9, x: 42 });
    assert_eq!(g[1], Glyph::Colon { x: 84 });
    assert_eq!(g.len(), 7);
}

#[test]
fn environment_block_parsing() {
    let block: Vec<u16> = "A=1\0BB=22\0\0".encode_utf16().collect();
    let names = environment_names(&block);
    let a: Vec<u16> = "A".encode_utf16().collect();
    let bb: Vec<u16> = "BB".encode_utf16().collect();
    assert_eq!(names, vec![a, bb]);
    let strings = environment_strings(&block);
    assert_eq!(strings.len(), 2);
}

#[test]
fn scrolling_stays_on_the_list() {
    assert_eq!(scroll_rows(0, SB_PAGEUP, 0, 100, 10, 50), 0);
    assert_eq!(scroll_rows(45, SB_PAGEDOWN, 0, 100, 10, 50), 50);
    assert_eq!(scroll_rows(5, SB_LINEDOWN, 0, 100, 10, 50), 6);
    assert_eq!(scroll_rows(5, SB_THUMBPOSITION, 20, 100, 10, 50), 20);
    assert_eq!(scroll_fonts(3, SB_TOP, 0, 6), 0);
    assert_eq!(scroll_fonts(6, SB_LINEDOWN, 0, 6), 6);
    assert_eq!(paint_rows(2, 0, 95, 10, 40), (2, 11));
    assert_eq!(color_scroll_unheld(250, SB_PAGEDOWN, 0), 265);
    assert_eq!(color_scroll_held(250, SB_PAGEDOWN, 0), Some(255));
    assert_eq!(color_scroll_held(10, 8, 0), None);
    assert_eq!(next_focus(2, false), 0);
    assert_eq!(next_focus(0, true), 2);
}
