//! The about boxes: which command ends a dialog, and the color and figure
//! dialog whose choices take effect only when it is confirmed.
use vstd::prelude::*;
use crate::words::rgb;
use crate::words::color_value;

verus! {

pub const IDOK: i32 = 1;
pub const IDCANCEL: i32 = 2;
pub const IDM_APP_ABOUT: u32 = 40001;
pub const IDM_ABOUT: u32 = 104;
pub const IDM_EXIT: u32 = 105;
pub const IDC_BLACK: i32 = 1000;
pub const IDC_WHITE: i32 = 1007;
pub const IDC_RECT: i32 = 1008;
pub const IDC_ELLIPSE: i32 = 1009;
pub const IDC_PAINT: i32 = 1010;
pub const VK_SPACE: usize = 0x20;

/// What the main window of the simple about box does with a menu command.
#[derive(Clone, Copy, PartialEq, Eq, Structural, Debug)]
pub enum MenuAction {
    /// Show the about box from the dialog template of that name.
    ShowAbout { vs_template: bool },
    /// Ask the window to close.
    Close,
    /// Nothing.
    Ignore,
}

/// The menu commands of the first about box program: two about boxes from
/// two templates, and exit.
pub fn about_menu_command(id: u32) -> (a: MenuAction)
    ensures
        a == (if id == IDM_ABOUT { MenuAction::ShowAbout { vs_template: true } }
            else if id == IDM_APP_ABOUT { MenuAction::ShowAbout { vs_template: false } }
            else if id == IDM_EXIT { MenuAction::Close }
            else { MenuAction::Ignore }),
{
    if id == IDM_ABOUT {
        MenuAction::ShowAbout { vs_template: true }
    } else if id == IDM_APP_ABOUT {
        MenuAction::ShowAbout { vs_template: false }
    } else if id == IDM_EXIT {
        MenuAction::Close
    } else {
        MenuAction::Ignore
    }
}

/// A plain about box: OK and Cancel both end it, and report the command
/// as handled; anything else is not handled.
pub fn about_command_ends(id: i32) -> (handled: bool)
    ensures
        handled == (id == IDOK || id == IDCANCEL),
{
    id == IDOK || id == IDCANCEL
}

/// Whether a push button drawn as an ellipse sends its command: on a
/// released mouse button, or on a released space bar.
pub fn ellipse_button_fires(is_key_up: bool, wparam: usize) -> (fires: bool)
    ensures
        fires == (!is_key_up || wparam == VK_SPACE),
{
    !is_key_up || wparam == VK_SPACE
}

/// The figure painted in the color and figure dialog.
#[derive(Clone, Copy, PartialEq, Eq, Structural, Debug)]
pub enum Figure {
    Rectangle,
    Ellipse,
}

/// The choice of a color button and a figure button, by their ids.
#[derive(Clone, Copy, PartialEq, Eq, Structural, Debug)]
pub struct Choice {
    pub color: i32,
    pub figure: i32,
}

impl Choice {
    /// Both ids name a button of their group.
    pub open spec fn wf(self) -> bool {
        IDC_BLACK <= self.color <= IDC_WHITE && IDC_RECT <= self.figure <= IDC_ELLIPSE
    }

    /// Black rectangle: the choice the program starts with.
    pub fn initial() -> (c: Choice)
        ensures
            c.wf(),
            c == (Choice { color: IDC_BLACK, figure: IDC_RECT }),
    {
        Choice { color: IDC_BLACK, figure: IDC_RECT }
    }
}

/// The window's current choice and, while the dialog is open, the choice
/// being made in it.
#[derive(Clone, Copy, PartialEq, Eq, Structural, Debug)]
pub struct ColorDialog {
    pub current: Choice,
    pub pending: Choice,
}

/// What the dialog procedure does after a command.
#[derive(Clone, Copy, PartialEq, Eq, Structural, Debug)]
pub enum DialogReply {
    /// End the dialog, reporting whether the choice was confirmed.
    End { confirmed: bool },
    /// Check button `id` in the radio group `first..=last` and repaint the
    /// sample with the pending choice.
    Select { first: i32, last: i32, id: i32 },
    /// The command is not the dialog's.
    Unhandled,
}

/// The dialog after a command, and its reply.
pub open spec fn dialog_step(d: ColorDialog, id: i32) -> (ColorDialog, DialogReply) {
    if id == IDOK {
        (ColorDialog { current: d.pending, pending: d.pending }, DialogReply::End { confirmed: true })
    } else if id == IDCANCEL {
        (d, DialogReply::End { confirmed: false })
    } else if IDC_BLACK <= id <= IDC_WHITE {
        (ColorDialog { current: d.current, pending: Choice { color: id, figure: d.pending.figure } },
            DialogReply::Select { first: IDC_BLACK, last: IDC_WHITE, id })
    } else if IDC_RECT <= id <= IDC_ELLIPSE {
        (ColorDialog { current: d.current, pending: Choice { color: d.pending.color, figure: id } },
            DialogReply::Select { first: IDC_RECT, last: IDC_ELLIPSE, id })
    } else {
        (d, DialogReply::Unhandled)
    }
}

impl ColorDialog {
    pub open spec fn wf(self) -> bool {
        self.current.wf() && self.pending.wf()
    }

    /// The program's state before any dialog: black rectangle.
    pub fn new() -> (d: ColorDialog)
        ensures
            d.wf(),
            d.current == (Choice { color: IDC_BLACK, figure: IDC_RECT }),
            d.pending == d.current,
    {
        ColorDialog { current: Choice::initial(), pending: Choice::initial() }
    }

    /// The dialog opens on the current choice.
    pub fn open(&mut self)
        ensures
            final(self).current == old(self).current,
            final(self).pending == old(self).current,
            old(self).wf() ==> final(self).wf(),
    {
        self.pending = self.current;
    }

    /// A command from the dialog: OK makes the pending choice current,
    /// Cancel leaves the current choice as it was, a color or figure button
    /// changes the pending choice.
    pub fn command(&mut self, id: i32) -> (reply: DialogReply)
        ensures
            (*final(self), reply) == dialog_step(*old(self), id),
            old(self).wf() ==> final(self).wf(),
    {
        if id == IDOK {
            self.current = self.pending;
            DialogReply::End { confirmed: true }
        } else if id == IDCANCEL {
            DialogReply::End { confirmed: false }
        } else if IDC_BLACK <= id && id <= IDC_WHITE {
            self.pending = Choice { color: id, figure: self.pending.figure };
            DialogReply::Select { first: IDC_BLACK, last: IDC_WHITE, id }
        } else if IDC_RECT <= id && id <= IDC_ELLIPSE {
            self.pending = Choice { color: self.pending.color, figure: id };
            DialogReply::Select { first: IDC_RECT, last: IDC_ELLIPSE, id }
        } else {
            DialogReply::Unhandled
        }
    }
}

/// The color of a color button: bit 2 of its place in the group is red,
/// bit 1 green, bit 0 blue.
pub open spec fn spec_figure_color(color: i32) -> u32 {
    let i = color - IDC_BLACK;
    color_value(
        if (i / 4) % 2 == 1 { 255 } else { 0 },
        if (i / 2) % 2 == 1 { 255 } else { 0 },
        if i % 2 == 1 { 255 } else { 0 },
    ) as u32
}

/// The brush color for a color button's id.
pub fn figure_color(color: i32) -> (c: u32)
    requires
        IDC_BLACK <= color <= IDC_WHITE,
    ensures
        c == spec_figure_color(color),
{
    let i = color - IDC_BLACK;
    let r: i32 = if (i / 4) % 2 == 1 { 255 } else { 0 };
    let g: i32 = if (i / 2) % 2 == 1 { 255 } else { 0 };
    let b: i32 = if i % 2 == 1 { 255 } else { 0 };
    rgb(r, g, b)
}

/// The figure drawn for a figure button's id: the rectangle for its own
/// button, the ellipse otherwise.
pub fn figure_of(figure: i32) -> (f: Figure)
    ensures
        f == (if figure == IDC_RECT { Figure::Rectangle } else { Figure::Ellipse }),
{
    if figure == IDC_RECT { Figure::Rectangle } else { Figure::Ellipse }
}

/// Confirming the dialog makes what was chosen in it the window's choice;
/// cancelling it leaves the window's choice as it was before the dialog
/// opened, whatever was clicked meanwhile.
pub proof fn law_ok_commits_cancel_discards(d: ColorDialog, clicks: Seq<i32>)
    ensures
        ({
            let opened = ColorDialog { current: d.current, pending: d.current };
            let after = run_dialog(opened, clicks);
            &&& after.current == d.current
            &&& dialog_step(after, IDCANCEL).0.current == d.current
            &&& dialog_step(after, IDOK).0.current == after.pending
        }),
{
    let opened = ColorDialog { current: d.current, pending: d.current };
    lemma_clicks_keep_current(opened, clicks);
}

/// The dialog after a series of button clicks (none of them OK or Cancel).
pub open spec fn run_dialog(d: ColorDialog, clicks: Seq<i32>) -> ColorDialog
    decreases clicks.len(),
{
    if clicks.len() == 0 {
        d
    } else {
        let id = clicks.last();
        let before = run_dialog(d, clicks.drop_last());
        if id == IDOK || id == IDCANCEL { before } else { dialog_step(before, id).0 }
    }
}

proof fn lemma_clicks_keep_current(d: ColorDialog, clicks: Seq<i32>)
    ensures
        run_dialog(d, clicks).current == d.current,
    decreases clicks.len(),
{
    if clicks.len() > 0 {
        lemma_clicks_keep_current(d, clicks.drop_last());
    }
}

/// Every choice the dialog makes names a button of its group.
pub proof fn law_dialog_keeps_choice_valid(d: ColorDialog, id: i32)
    requires
        d.wf(),
    ensures
        dialog_step(d, id).0.wf(),
{
}

} // verus!
