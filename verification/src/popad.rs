//! The notepad editor: when its text needs saving, what happens when the
//! user is asked about unsaved changes, which menu items are enabled, and
//! what each menu command does.
use vstd::prelude::*;
use crate::words::{rgb, color_value};
use crate::wide::{to_wide_chars, utf16};

verus! {

pub const EDIT_ID: i32 = 1;
pub const EN_UPDATE: u32 = 0x0400;
pub const EN_ERRSPACE: u32 = 0x0500;
pub const EN_MAXTEXT: u32 = 0x0501;
pub const IDYES: i32 = 6;
pub const IDNO: i32 = 7;
pub const IDCANCEL: i32 = 2;
pub const IDM_FILE_NEW: u32 = 40001;
pub const IDM_FILE_OPEN: u32 = 40002;
pub const IDM_FILE_SAVE: u32 = 40003;
pub const IDM_FILE_SAVE_AS: u32 = 40004;
pub const IDM_FILE_PRINT: u32 = 40005;
pub const IDM_APP_EXIT: u32 = 40006;
pub const IDM_EDIT_UNDO: u32 = 40007;
pub const IDM_EDIT_CUT: u32 = 40008;
pub const IDM_EDIT_COPY: u32 = 40009;
pub const IDM_EDIT_PASTE: u32 = 40010;
pub const IDM_EDIT_CLEAR: u32 = 40011;
pub const IDM_EDIT_SELECT_ALL: u32 = 40012;
pub const IDM_SEARCH_FIND: u32 = 40013;
pub const IDM_SEARCH_NEXT: u32 = 40014;
pub const IDM_SEARCH_REPLACE: u32 = 40015;
pub const IDM_FORMAT_FONT: u32 = 40016;
pub const IDM_HELP: u32 = 40017;
pub const IDM_APP_ABOUT: u32 = 40018;
pub const EDIT_TEXT_LIMIT: usize = 3200;
pub const FR_DIALOGTERM: u32 = 0x40;
pub const OFN_HIDEREADONLY: u32 = 0x4;
pub const OFN_CREATEPROMPT: u32 = 0x2000;
pub const OFN_OVERWRITEPROMPT: u32 = 0x2;

/// What a notification from the edit control asks of the window.
#[derive(Clone, Copy, PartialEq, Eq, Structural, Debug)]
pub enum EditNote {
    /// The text changed: it needs saving.
    Changed,
    /// The control is out of space: tell the user.
    OutOfSpace,
    /// Not a notification the window acts on.
    Other,
}

/// Reads a command from the edit control (`lparam` nonzero and the
/// control's id in the low word of `wparam`) by its notification code.
pub fn edit_note(from_control: bool, control_id: i32, code: u32) -> (n: EditNote)
    ensures
        n == (if from_control && control_id == EDIT_ID {
            if code == EN_UPDATE { EditNote::Changed }
            else if code == EN_ERRSPACE || code == EN_MAXTEXT { EditNote::OutOfSpace }
            else { EditNote::Other }
        } else { EditNote::Other }),
{
    if from_control && control_id == EDIT_ID {
        if code == EN_UPDATE {
            EditNote::Changed
        } else if code == EN_ERRSPACE || code == EN_MAXTEXT {
            EditNote::OutOfSpace
        } else {
            EditNote::Other
        }
    } else {
        EditNote::Other
    }
}

/// The answer to "Save current changes?": the button pressed, except that
/// Yes counts as Cancel when the save that it asked for failed.
pub open spec fn spec_save_answer(reply: i32, saved: bool) -> i32 {
    if reply == IDYES && !saved { IDCANCEL } else { reply }
}

pub fn save_answer(reply: i32, saved: bool) -> (answer: i32)
    ensures
        answer == spec_save_answer(reply, saved),
{
    if reply == IDYES && !saved { IDCANCEL } else { reply }
}

/// Whether the text may be dropped (for a new file, another file, closing
/// or ending the session): yes when nothing needs saving, else unless the
/// user cancelled. `answer` is only read when the text needs saving.
pub open spec fn spec_may_discard(need_save: bool, answer: i32) -> bool {
    !need_save || answer != IDCANCEL
}

pub fn may_discard(need_save: bool, answer: i32) -> (ok: bool)
    ensures
        ok == spec_may_discard(need_save, answer),
{
    !need_save || answer != IDCANCEL
}

/// The editor's own state besides the text in the edit control.
#[derive(Debug)]
pub struct Editor {
    pub need_save: bool,
    pub file_name: String,
    pub title_name: String,
    pub find_dialog_open: bool,
}

impl Editor {
    /// A new, empty, untitled document.
    pub fn new() -> (e: Editor)
        ensures
            !e.need_save,
            e.file_name@.len() == 0,
            e.title_name@.len() == 0,
            !e.find_dialog_open,
    {
        Editor { need_save: false, file_name: String::new(), title_name: String::new(), find_dialog_open: false }
    }

    /// The edit control reported a notification; a change makes the text
    /// need saving. Returns whether the user is to be told that the control
    /// is out of space.
    pub fn notify(&mut self, note: EditNote) -> (warn: bool)
        ensures
            final(self).need_save == (old(self).need_save || note == EditNote::Changed),
            final(self).file_name@ == old(self).file_name@,
            final(self).title_name@ == old(self).title_name@,
            final(self).find_dialog_open == old(self).find_dialog_open,
            warn == (note == EditNote::OutOfSpace),
    {
        match note {
            EditNote::Changed => {
                self.need_save = true;
                false
            },
            EditNote::OutOfSpace => true,
            EditNote::Other => false,
        }
    }

    /// File New, once the old text may be dropped: no file, untitled,
    /// nothing to save.
    pub fn file_new(&mut self)
        ensures
            !final(self).need_save,
            final(self).file_name@.len() == 0,
            final(self).title_name@.len() == 0,
            final(self).find_dialog_open == old(self).find_dialog_open,
    {
        self.file_name = String::new();
        self.title_name = String::new();
        self.need_save = false;
    }

    /// File Open, once the old text may be dropped: the names of the file
    /// chosen, if one was; nothing to save either way.
    pub fn file_opened(&mut self, chosen: Option<(String, String)>)
        ensures
            !final(self).need_save,
            final(self).find_dialog_open == old(self).find_dialog_open,
            match chosen {
                Some((f, t)) => final(self).file_name@ == f@ && final(self).title_name@ == t@,
                None => final(self).file_name@ == old(self).file_name@
                    && final(self).title_name@ == old(self).title_name@,
            },
    {
        match chosen {
            Some((f, t)) => {
                self.file_name = f;
                self.title_name = t;
            },
            None => {},
        }
        self.need_save = false;
    }

    /// A message from the find and replace dialog: it closed when its flags
    /// say so.
    pub fn find_message(&mut self, flags: u32)
        ensures
            final(self).find_dialog_open == (old(self).find_dialog_open && flags & FR_DIALOGTERM != FR_DIALOGTERM),
            final(self).need_save == old(self).need_save,
            final(self).file_name@ == old(self).file_name@,
            final(self).title_name@ == old(self).title_name@,
    {
        if flags & FR_DIALOGTERM == FR_DIALOGTERM {
            self.find_dialog_open = false;
        }
    }
}

/// Which items of the Edit menu are enabled when it opens.
#[derive(Clone, Copy, PartialEq, Eq, Structural, Debug)]
pub struct EditMenuState {
    pub undo: bool,
    pub paste: bool,
    /// Cut, Copy and Delete.
    pub selection: bool,
}

/// Undo when the control can undo, Paste when the clipboard holds text,
/// Cut, Copy and Delete when some text is selected.
pub fn edit_menu_state(can_undo: bool, clipboard_has_text: bool, sel_beg: i32, sel_end: i32) -> (s: EditMenuState)
    ensures
        s == (EditMenuState { undo: can_undo, paste: clipboard_has_text, selection: sel_beg != sel_end }),
{
    EditMenuState { undo: can_undo, paste: clipboard_has_text, selection: sel_beg != sel_end }
}

/// Find, Find Next and Replace are enabled when no find dialog is open.
pub fn search_menu_enabled(find_dialog_open: bool) -> (enabled: bool)
    ensures
        enabled == !find_dialog_open,
{
    !find_dialog_open
}

/// Which popup menu is opening, by the value the window reads it from.
#[derive(Clone, Copy, PartialEq, Eq, Structural, Debug)]
pub enum PopupMenu {
    Edit,
    Search,
    Other,
}

pub fn popup_menu(index: isize) -> (m: PopupMenu)
    ensures
        m == (if index == 1 { PopupMenu::Edit } else if index == 2 { PopupMenu::Search } else { PopupMenu::Other }),
{
    if index == 1 {
        PopupMenu::Edit
    } else if index == 2 {
        PopupMenu::Search
    } else {
        PopupMenu::Other
    }
}

/// A message the window sends to the edit control for an Edit command.
#[derive(Clone, Copy, PartialEq, Eq, Structural, Debug)]
pub enum EditRequest {
    Undo,
    Cut,
    Copy,
    Paste,
    Clear,
    SelectAll,
}

/// What the window does for a menu command.
#[derive(Clone, Copy, PartialEq, Eq, Structural, Debug)]
pub enum EditorCommand {
    New,
    Open,
    /// Save and Save As: not done by this editor; they report no save.
    Save,
    Print,
    Exit,
    Edit(EditRequest),
    /// Find, Find Next and Replace: read the selection.
    Search,
    Font,
    Help,
    About,
    /// Not a menu command: the default handling.
    Default,
}

pub open spec fn spec_editor_command(id: u32) -> EditorCommand {
    if id == IDM_FILE_NEW { EditorCommand::New }
    else if id == IDM_FILE_OPEN { EditorCommand::Open }
    else if id == IDM_FILE_SAVE || id == IDM_FILE_SAVE_AS { EditorCommand::Save }
    else if id == IDM_FILE_PRINT { EditorCommand::Print }
    else if id == IDM_APP_EXIT { EditorCommand::Exit }
    else if id == IDM_EDIT_UNDO { EditorCommand::Edit(EditRequest::Undo) }
    else if id == IDM_EDIT_CUT { EditorCommand::Edit(EditRequest::Cut) }
    else if id == IDM_EDIT_COPY { EditorCommand::Edit(EditRequest::Copy) }
    else if id == IDM_EDIT_PASTE { EditorCommand::Edit(EditRequest::Paste) }
    else if id == IDM_EDIT_CLEAR { EditorCommand::Edit(EditRequest::Clear) }
    else if id == IDM_EDIT_SELECT_ALL { EditorCommand::Edit(EditRequest::SelectAll) }
    else if IDM_SEARCH_FIND <= id <= IDM_SEARCH_REPLACE { EditorCommand::Search }
    else if id == IDM_FORMAT_FONT { EditorCommand::Font }
    else if id == IDM_HELP { EditorCommand::Help }
    else if id == IDM_APP_ABOUT { EditorCommand::About }
    else { EditorCommand::Default }
}

/// The command for a menu item's id.
pub fn editor_command(id: u32) -> (c: EditorCommand)
    ensures
        c == spec_editor_command(id),
{
    if id == IDM_FILE_NEW { EditorCommand::New }
    else if id == IDM_FILE_OPEN { EditorCommand::Open }
    else if id == IDM_FILE_SAVE || id == IDM_FILE_SAVE_AS { EditorCommand::Save }
    else if id == IDM_FILE_PRINT { EditorCommand::Print }
    else if id == IDM_APP_EXIT { EditorCommand::Exit }
    else if id == IDM_EDIT_UNDO { EditorCommand::Edit(EditRequest::Undo) }
    else if id == IDM_EDIT_CUT { EditorCommand::Edit(EditRequest::Cut) }
    else if id == IDM_EDIT_COPY { EditorCommand::Edit(EditRequest::Copy) }
    else if id == IDM_EDIT_PASTE { EditorCommand::Edit(EditRequest::Paste) }
    else if id == IDM_EDIT_CLEAR { EditorCommand::Edit(EditRequest::Clear) }
    else if id == IDM_EDIT_SELECT_ALL { EditorCommand::Edit(EditRequest::SelectAll) }
    else if IDM_SEARCH_FIND <= id && id <= IDM_SEARCH_REPLACE { EditorCommand::Search }
    else if id == IDM_FORMAT_FONT { EditorCommand::Font }
    else if id == IDM_HELP { EditorCommand::Help }
    else if id == IDM_APP_ABOUT { EditorCommand::About }
    else { EditorCommand::Default }
}

/// The edit control's colors: white text on black.
pub fn edit_colors() -> (c: (u32, u32))
    ensures
        c == (color_value(255, 255, 255) as u32, color_value(0, 0, 0) as u32),
{
    (rgb(255, 255, 255), rgb(0, 0, 0))
}

/// The file types offered by the open and save dialogs: description and
/// pattern of each, in order.
pub open spec fn filter_entries() -> Seq<Seq<char>> {
    seq!["Text Files (*.TXT)"@, "*.txt"@, "Ascii Files (*.ASC)"@, "*.asc"@, "All Files (*.*)"@, "*.*"@]
}

/// The first `k` entries, each followed by a NUL.
pub open spec fn nul_terminated(entries: Seq<Seq<char>>, k: int) -> Seq<u16>
    decreases k,
{
    if k <= 0 {
        seq![]
    } else {
        nul_terminated(entries, k - 1) + utf16(entries[k - 1]) + seq![0u16]
    }
}

/// Each entry, followed by a NUL, and one more NUL at the end.
pub open spec fn nul_joined(entries: Seq<Seq<char>>) -> Seq<u16> {
    nul_terminated(entries, entries.len() as int) + seq![0u16]
}

fn push_entry(out: &mut Vec<u16>, s: &str, Ghost(entries): Ghost<Seq<Seq<char>>>, Ghost(k): Ghost<int>)
    requires
        0 <= k < entries.len(),
        entries[k] == s@,
        old(out)@ == nul_terminated(entries, k),
    ensures
        final(out)@ == nul_terminated(entries, k + 1),
{
    let mut w = to_wide_chars(s);
    out.append(&mut w);
    assert(out@ =~= nul_terminated(entries, k + 1));
}

/// The filter list of the file dialogs, as the wide string they take.
pub fn file_filter() -> (f: Vec<u16>)
    ensures
        f@ == nul_joined(filter_entries()),
{
    let ghost e = filter_entries();
    let mut f: Vec<u16> = Vec::new();
    assert(f@ =~= nul_terminated(e, 0));
    push_entry(&mut f, "Text Files (*.TXT)", Ghost(e), Ghost(0));
    push_entry(&mut f, "*.txt", Ghost(e), Ghost(1));
    push_entry(&mut f, "Ascii Files (*.ASC)", Ghost(e), Ghost(2));
    push_entry(&mut f, "*.asc", Ghost(e), Ghost(3));
    push_entry(&mut f, "All Files (*.*)", Ghost(e), Ghost(4));
    push_entry(&mut f, "*.*", Ghost(e), Ghost(5));
    f.push(0);
    assert(f@ =~= nul_joined(e));
    f
}

/// The dialog flags: the open dialog hides the read-only box and offers
/// to create a missing file; the save dialog asks before overwriting.
pub fn file_dialog_flags(save: bool) -> (flags: u32)
    ensures
        flags == (if save { OFN_OVERWRITEPROMPT } else { OFN_HIDEREADONLY | OFN_CREATEPROMPT }),
{
    if save { OFN_OVERWRITEPROMPT } else { OFN_HIDEREADONLY | OFN_CREATEPROMPT }
}

/// Text that changed is never dropped without asking: when it needs saving
/// it may be dropped only on an answer other than Cancel, and Yes with a
/// failed save counts as Cancel; when nothing needs saving it may always be
/// dropped, whatever the reply.
pub proof fn law_changes_not_lost(need_save: bool, reply: i32, saved: bool)
    ensures
        !need_save ==> spec_may_discard(need_save, spec_save_answer(reply, saved)),
        need_save && reply == IDYES && !saved ==> !spec_may_discard(need_save, spec_save_answer(reply, saved)),
        need_save && reply == IDCANCEL ==> !spec_may_discard(need_save, spec_save_answer(reply, saved)),
        need_save && (reply == IDNO || (reply == IDYES && saved))
            ==> spec_may_discard(need_save, spec_save_answer(reply, saved)),
{
}

/// Whether an edit request changes the text: Undo, Cut, Paste and Delete
/// do; Copy and Select All leave it as it is.
pub open spec fn changes_text(r: EditRequest) -> bool {
    r == EditRequest::Undo || r == EditRequest::Cut || r == EditRequest::Paste || r == EditRequest::Clear
}

/// Each item of the Edit menu sends the edit control a request of its own;
/// the only items whose request leaves the text unchanged are Copy and
/// Select All, and only Copy copies.
pub proof fn law_edit_items(a: u32, b: u32)
    ensures
        IDM_EDIT_UNDO <= a <= IDM_EDIT_SELECT_ALL ==> spec_editor_command(a) is Edit,
        IDM_EDIT_UNDO <= a <= IDM_EDIT_SELECT_ALL && IDM_EDIT_UNDO <= b <= IDM_EDIT_SELECT_ALL && a != b
            ==> spec_editor_command(a) != spec_editor_command(b),
        (spec_editor_command(a) matches EditorCommand::Edit(r) && !changes_text(r))
            <==> (a == IDM_EDIT_COPY || a == IDM_EDIT_SELECT_ALL),
        (spec_editor_command(a) == EditorCommand::Edit(EditRequest::Copy)) <==> a == IDM_EDIT_COPY,
        (spec_editor_command(a) == EditorCommand::Edit(EditRequest::Cut)) <==> a == IDM_EDIT_CUT,
{
}

} // verus!
