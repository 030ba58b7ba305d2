//! The menu demonstration: the menu it builds, what each command does, the
//! checked background item and the timer items that are enabled in turn.
use vstd::prelude::*;

verus! {

pub const IDM_FILE_NEW: usize = 40001;
pub const IDM_FILE_OPEN: usize = 40002;
pub const IDM_FILE_SAVE: usize = 40003;
pub const IDM_FILE_SAVE_AS: usize = 40004;
pub const IDM_APP_EXIT: usize = 40005;
pub const IDM_EDIT_UNDO: usize = 40006;
pub const IDM_EDIT_CUT: usize = 40007;
pub const IDM_EDIT_COPY: usize = 40008;
pub const IDM_EDIT_PASTE: usize = 40009;
pub const IDM_EDIT_CLEAR: usize = 40010;
pub const IDM_BKGND_WHITE: usize = 40011;
pub const IDM_BKGND_LTGRAY: usize = 40012;
pub const IDM_BKGND_GRAY: usize = 40013;
pub const IDM_BKGND_DKGRAY: usize = 40014;
pub const IDM_BKGND_BLACK: usize = 40015;
pub const IDM_TIMER_START: usize = 40016;
pub const IDM_TIMER_STOP: usize = 40017;
pub const IDM_APP_HELP: usize = 40018;
pub const IDM_APP_ABOUT: usize = 40019;
pub const ID_TIMER: usize = 1;
pub const TIMER_PERIOD_MS: u32 = 1000;

/// The stock brushes the background can be painted with.
#[derive(Clone, Copy, PartialEq, Eq, Structural, Debug)]
pub enum StockBrush {
    White,
    LightGray,
    Gray,
    DarkGray,
    Black,
}

/// What the window does for a command.
#[derive(Clone, Copy, PartialEq, Eq, Structural, Debug)]
pub enum MenuCommand {
    /// Not done by this program: a beep.
    Beep,
    Close,
    /// Uncheck the item `previous`, check the item `id` and repaint with
    /// `brush`.
    Background { previous: usize, id: usize, brush: StockBrush },
    /// Start the timer; on success gray Start and enable Stop.
    TimerStart,
    /// Stop the timer, enable Start and gray Stop.
    TimerStop,
    Help,
    About,
    Default,
}

/// The brush for a background item: white, light gray, gray, dark gray,
/// black in the order of the items.
pub open spec fn spec_brush(id: usize) -> StockBrush {
    if id == IDM_BKGND_WHITE { StockBrush::White }
    else if id == IDM_BKGND_LTGRAY { StockBrush::LightGray }
    else if id == IDM_BKGND_GRAY { StockBrush::Gray }
    else if id == IDM_BKGND_DKGRAY { StockBrush::DarkGray }
    else { StockBrush::Black }
}

pub fn background_brush(id: usize) -> (b: StockBrush)
    requires
        IDM_BKGND_WHITE <= id <= IDM_BKGND_BLACK,
    ensures
        b == spec_brush(id),
{
    if id == IDM_BKGND_WHITE { StockBrush::White }
    else if id == IDM_BKGND_LTGRAY { StockBrush::LightGray }
    else if id == IDM_BKGND_GRAY { StockBrush::Gray }
    else if id == IDM_BKGND_DKGRAY { StockBrush::DarkGray }
    else { StockBrush::Black }
}

/// The window's menu state: the checked background item and whether the
/// timer runs.
#[derive(Clone, Copy, PartialEq, Eq, Structural, Debug)]
pub struct MenuDemo {
    pub selection: usize,
    pub timer_on: bool,
}

/// The command for an id, in the state `d`, and the state after it
/// (before the outcome of starting the timer is known).
pub open spec fn spec_command(d: MenuDemo, id: usize) -> (MenuDemo, MenuCommand) {
    if IDM_FILE_NEW <= id <= IDM_FILE_SAVE_AS || IDM_EDIT_UNDO <= id <= IDM_EDIT_CLEAR {
        (d, MenuCommand::Beep)
    } else if id == IDM_APP_EXIT {
        (d, MenuCommand::Close)
    } else if IDM_BKGND_WHITE <= id <= IDM_BKGND_BLACK {
        (MenuDemo { selection: id, timer_on: d.timer_on },
            MenuCommand::Background { previous: d.selection, id, brush: spec_brush(id) })
    } else if id == IDM_TIMER_START {
        (d, MenuCommand::TimerStart)
    } else if id == IDM_TIMER_STOP {
        (MenuDemo { selection: d.selection, timer_on: false }, MenuCommand::TimerStop)
    } else if id == IDM_APP_HELP {
        (d, MenuCommand::Help)
    } else if id == IDM_APP_ABOUT {
        (d, MenuCommand::About)
    } else {
        (d, MenuCommand::Default)
    }
}

impl MenuDemo {
    pub open spec fn wf(self) -> bool {
        IDM_BKGND_WHITE <= self.selection <= IDM_BKGND_BLACK
    }

    /// White background, timer stopped.
    pub fn new() -> (d: MenuDemo)
        ensures
            d.wf(),
            d == (MenuDemo { selection: IDM_BKGND_WHITE, timer_on: false }),
    {
        MenuDemo { selection: IDM_BKGND_WHITE, timer_on: false }
    }

    /// Handles a command.
    pub fn command(&mut self, id: usize) -> (c: MenuCommand)
        ensures
            (*final(self), c) == spec_command(*old(self), id),
            old(self).wf() ==> final(self).wf(),
    {
        if (IDM_FILE_NEW <= id && id <= IDM_FILE_SAVE_AS) || (IDM_EDIT_UNDO <= id && id <= IDM_EDIT_CLEAR) {
            MenuCommand::Beep
        } else if id == IDM_APP_EXIT {
            MenuCommand::Close
        } else if IDM_BKGND_WHITE <= id && id <= IDM_BKGND_BLACK {
            let previous = self.selection;
            self.selection = id;
            MenuCommand::Background { previous, id, brush: background_brush(id) }
        } else if id == IDM_TIMER_START {
            MenuCommand::TimerStart
        } else if id == IDM_TIMER_STOP {
            self.timer_on = false;
            MenuCommand::TimerStop
        } else if id == IDM_APP_HELP {
            MenuCommand::Help
        } else if id == IDM_APP_ABOUT {
            MenuCommand::About
        } else {
            MenuCommand::Default
        }
    }

    /// The outcome of starting the timer: it runs only if it was set.
    pub fn timer_started(&mut self, ok: bool)
        ensures
            final(self).selection == old(self).selection,
            final(self).timer_on == (old(self).timer_on || ok),
    {
        if ok {
            self.timer_on = true;
        }
    }

    /// Whether the Start and Stop items are enabled: exactly one of them,
    /// by whether the timer runs.
    pub fn timer_items(&self) -> (enabled: (bool, bool))
        ensures
            enabled == (!self.timer_on, self.timer_on),
    {
        (!self.timer_on, self.timer_on)
    }
}

/// One entry of a popup menu.
#[derive(Clone, Copy, Debug)]
pub enum MenuEntry {
    Item { id: usize, label: &'static str, checked: bool, grayed: bool },
    Separator,
}

/// A popup menu of the menu bar: its label and entries.
#[derive(Debug)]
pub struct Popup {
    pub label: &'static str,
    pub entries: Vec<MenuEntry>,
}

pub open spec fn item(id: usize, label: &'static str) -> MenuEntry {
    MenuEntry::Item { id, label, checked: false, grayed: false }
}

/// The entries of the five popups, in order: File, Edit, Background,
/// Timer, Help. White starts checked and Stop starts grayed.
pub open spec fn spec_popup_entries(k: int) -> Seq<MenuEntry> {
    if k == 0 {
        seq![item(IDM_FILE_NEW, "新規(&N)"), item(IDM_FILE_OPEN, "開く(&O)"), item(IDM_FILE_SAVE, "保存(&S"),
            item(IDM_FILE_SAVE_AS, "名前を付けて保存(&A)..."), MenuEntry::Separator, item(IDM_APP_EXIT, "終了(&X)")]
    } else if k == 1 {
        seq![item(IDM_EDIT_UNDO, "元に戻す(&U)"), MenuEntry::Separator, item(IDM_EDIT_CUT, "切り取り(&T)"),
            item(IDM_EDIT_COPY, "コピー(&C)"), item(IDM_EDIT_PASTE, "貼り付け(&P)"), item(IDM_EDIT_CLEAR, "削除(&L)")]
    } else if k == 2 {
        seq![MenuEntry::Item { id: IDM_BKGND_WHITE, label: "White(&W)", checked: true, grayed: false },
            item(IDM_BKGND_LTGRAY, "Light Gray(&L)"), item(IDM_BKGND_GRAY, "Gray(&G)"),
            item(IDM_BKGND_DKGRAY, "Dark Gray(&D)"), item(IDM_BKGND_BLACK, "Black(&B)")]
    } else if k == 3 {
        seq![item(IDM_TIMER_START, "開始(&S)"),
            MenuEntry::Item { id: IDM_TIMER_STOP, label: "停止(&T)", checked: false, grayed: true }]
    } else {
        seq![item(IDM_APP_HELP, "ヘルプ(&H)..."), item(IDM_APP_ABOUT, "Menu Demo2について(&A)...")]
    }
}

pub open spec fn spec_popup_label(k: int) -> &'static str {
    if k == 0 { "ファイル(&F)" }
    else if k == 1 { "編集(&E)" }
    else if k == 2 { "背景(&B)" }
    else if k == 3 { "タイマー(&T)" }
    else { "ヘルプ(&H)" }
}

fn plain(id: usize, label: &'static str) -> (e: MenuEntry)
    ensures
        e == item(id, label),
{
    MenuEntry::Item { id, label, checked: false, grayed: false }
}

/// The menu bar that the second menu demonstration builds.
pub fn menu_layout() -> (m: Vec<Popup>)
    ensures
        m@.len() == 5,
        forall|k: int| 0 <= k < 5 ==> (#[trigger] m@[k]).label == spec_popup_label(k)
            && m@[k].entries@ == spec_popup_entries(k),
{
    let file = vec![plain(IDM_FILE_NEW, "新規(&N)"), plain(IDM_FILE_OPEN, "開く(&O)"), plain(IDM_FILE_SAVE, "保存(&S"),
        plain(IDM_FILE_SAVE_AS, "名前を付けて保存(&A)..."), MenuEntry::Separator, plain(IDM_APP_EXIT, "終了(&X)")];
    let edit = vec![plain(IDM_EDIT_UNDO, "元に戻す(&U)"), MenuEntry::Separator, plain(IDM_EDIT_CUT, "切り取り(&T)"),
        plain(IDM_EDIT_COPY, "コピー(&C)"), plain(IDM_EDIT_PASTE, "貼り付け(&P)"), plain(IDM_EDIT_CLEAR, "削除(&L)")];
    let bkgnd = vec![MenuEntry::Item { id: IDM_BKGND_WHITE, label: "White(&W)", checked: true, grayed: false },
        plain(IDM_BKGND_LTGRAY, "Light Gray(&L)"), plain(IDM_BKGND_GRAY, "Gray(&G)"),
        plain(IDM_BKGND_DKGRAY, "Dark Gray(&D)"), plain(IDM_BKGND_BLACK, "Black(&B)")];
    let timer = vec![plain(IDM_TIMER_START, "開始(&S)"),
        MenuEntry::Item { id: IDM_TIMER_STOP, label: "停止(&T)", checked: false, grayed: true }];
    let help = vec![plain(IDM_APP_HELP, "ヘルプ(&H)..."), plain(IDM_APP_ABOUT, "Menu Demo2について(&A)...")];
    assert(file@ =~= spec_popup_entries(0));
    assert(edit@ =~= spec_popup_entries(1));
    assert(bkgnd@ =~= spec_popup_entries(2));
    assert(timer@ =~= spec_popup_entries(3));
    assert(help@ =~= spec_popup_entries(4));
    let m = vec![
        Popup { label: "ファイル(&F)", entries: file },
        Popup { label: "編集(&E)", entries: edit },
        Popup { label: "背景(&B)", entries: bkgnd },
        Popup { label: "タイマー(&T)", entries: timer },
        Popup { label: "ヘルプ(&H)", entries: help },
    ];
    m
}

/// The beeper's color for each tick: red and blue in turn.
pub fn beeper_color(flip_flop: bool) -> (c: u32)
    ensures
        c == (if flip_flop { 0x0000_00FFu32 } else { 0x00FF_0000u32 }),
{
    if flip_flop { crate::words::rgb(255, 0, 0) } else { crate::words::rgb(0, 0, 255) }
}

/// The background item that is checked is always one of the background
/// items, whatever commands come, and it is the last one chosen.
pub proof fn law_one_background_checked(d: MenuDemo, id: usize)
    requires
        d.wf(),
    ensures
        spec_command(d, id).0.wf(),
        IDM_BKGND_WHITE <= id <= IDM_BKGND_BLACK ==> spec_command(d, id).0.selection == id,
        !(IDM_BKGND_WHITE <= id <= IDM_BKGND_BLACK) ==> spec_command(d, id).0.selection == d.selection,
{
}

/// Stopping the timer always leaves it stopped, and starting it changes
/// nothing until its outcome is known.
pub proof fn law_timer_items(d: MenuDemo)
    ensures
        !spec_command(d, IDM_TIMER_STOP).0.timer_on,
        spec_command(d, IDM_TIMER_START).0 == d,
{
}

} // verus!
