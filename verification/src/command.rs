//! From a key press to the command it stands for. Which command a key
//! stands for depends on the screen, on whether a dialog is open on it and
//! on the presentation; it does not depend on what the fields hold.

use crate::key::{BareKey, KeyWithModifier};
use crate::screen::ActiveScreen;
use vstd::prelude::*;

verus! {

/// What a key press asks for.
#[derive(Clone, Copy, Debug, PartialEq, Eq, Structural)]
pub enum Command {
    /// The key means nothing here.
    Ignore,
    /// Hide the overlay.
    Hide,
    /// Go to the next screen.
    ToggleForward,
    /// Go to the screen before.
    ToggleBackward,
    /// Commit the selection of the screen.
    Commit,
    /// New session: hand this key to the builder.
    Forward(KeyWithModifier),
    /// New session: ask the helper for a folder.
    RequestFolder,
    /// New session: forget the chosen folder.
    ClearFolder,
    /// Attach: show more detail of the selected result.
    ExpandResult,
    /// Attach: show less detail of the selected result.
    ShrinkResult,
    /// Attach: move the selection down.
    SelectionDown,
    /// Attach: move the selection up.
    SelectionUp,
    /// Attach: switch between the expanded and the collapsed list.
    ToggleExpansion,
    /// Attach: a character for the rename field or the search field.
    TypeChar(char),
    /// Attach: backspace in the rename field or the search field.
    Backspace,
    /// Attach: open the rename field.
    StartRename,
    /// Attach: close the rename field.
    CancelRename,
    /// Attach: kill the selected session.
    KillSelected,
    /// Attach: ask whether all other sessions are to be killed.
    AskKillAll,
    /// Attach, asked: yes, kill all other sessions.
    ConfirmKillAll,
    /// Attach, asked: no.
    CancelKillAll,
    /// Attach: disconnect the other clients of the current session.
    DisconnectOthers,
    /// Search field: cursor one to the right.
    CursorRight,
    /// Search field: cursor one to the left.
    CursorLeft,
    /// Search field: cursor to the start.
    CursorStart,
    /// Search field: cursor to the end.
    CursorEnd,
    /// Search field: cut to the end of the line; with nothing to cut, move
    /// the selection up.
    KillToEndOrSelectionUp,
    /// Search field: cut the whole line.
    KillLine,
    /// Search field: delete the word before the cursor.
    DeleteWordBackward,
    /// Search field: delete the word after the cursor.
    DeleteWordForward,
    /// Search field: delete the character at the cursor.
    DeleteForward,
    /// Attach: clear the search.
    ClearSearch,
    /// Resurrect: move the selection down.
    ResurrectDown,
    /// Resurrect: move the selection up.
    ResurrectUp,
    /// Resurrect: a character for the list's own search.
    ResurrectChar(char),
    /// Resurrect: backspace in the list's own search.
    ResurrectBackspace,
    /// Resurrect: delete the selected session.
    ResurrectDelete,
    /// Resurrect: ask whether all sessions are to be deleted.
    ResurrectDeleteAll,
}

/// The screen and what is open on it, as far as the meaning of a key
/// depends on it.
#[derive(Clone, Copy, Debug, PartialEq, Eq, Structural)]
pub struct Mode {
    pub screen: ActiveScreen,
    /// The question whether all other sessions are to be killed is open.
    pub confirming: bool,
    /// The rename field is open.
    pub renaming: bool,
    /// The overlay is the standalone welcome screen.
    pub standalone: bool,
}

impl Mode {
    /// A dialog is open on the screen that is shown. Dialogs belong to the
    /// attach screen and are open only while it is shown.
    pub open spec fn in_dialog(self) -> bool {
        self.screen == ActiveScreen::Attach && (self.confirming || self.renaming)
    }

    /// Whether a dialog is open on the screen that is shown.
    pub fn is_in_dialog(&self) -> (res: bool)
        ensures
            res == self.in_dialog(),
    {
        match self.screen {
            ActiveScreen::Attach => self.confirming || self.renaming,
            _ => false,
        }
    }
}

/// What a plain Escape means. A dialog that is open is closed, the question
/// before the rename field; with none open the overlay is hidden, unless it
/// is the standalone welcome screen, where the key goes to the builder of
/// new sessions on its screen and means nothing on the others.
pub open spec fn escape_command(mode: Mode, key: KeyWithModifier) -> Command {
    if mode.screen == ActiveScreen::Attach && mode.confirming {
        Command::CancelKillAll
    } else if mode.screen == ActiveScreen::Attach && mode.renaming {
        Command::CancelRename
    } else if !mode.standalone {
        Command::Hide
    } else if mode.screen == ActiveScreen::New {
        Command::Forward(key)
    } else {
        Command::Ignore
    }
}

/// What Ctrl with `c` means on each screen.
pub open spec fn ctrl_c_command(mode: Mode) -> Command {
    if !mode.standalone {
        Command::Hide
    } else {
        match mode.screen {
            ActiveScreen::New => Command::ClearFolder,
            ActiveScreen::Attach => if mode.confirming {
                Command::CancelKillAll
            } else {
                Command::ClearSearch
            },
            ActiveScreen::Resurrect => Command::Ignore,
        }
    }
}

/// What Tab means, on every screen and in the rename dialog too.
pub open spec fn tab_command(key: KeyWithModifier) -> Command {
    if key.no_modifiers() {
        Command::ToggleForward
    } else if key.shift {
        Command::ToggleBackward
    } else {
        Command::Ignore
    }
}

/// What a key other than plain Escape and Ctrl with `c` means on the screen
/// for new sessions.
pub open spec fn new_session_command(key: KeyWithModifier) -> Command {
    match key.bare_key {
        BareKey::Down | BareKey::Up | BareKey::Backspace => if key.no_modifiers() {
            Command::Forward(key)
        } else {
            Command::Ignore
        },
        BareKey::Enter => if key.no_modifiers() {
            Command::Commit
        } else {
            Command::Ignore
        },
        BareKey::Tab => tab_command(key),
        BareKey::Char(c) => if key.ctrl {
            if c == 'n' || c == 'j' {
                Command::Forward(KeyWithModifier::plain(BareKey::Down))
            } else if c == 'p' || c == 'k' {
                Command::Forward(KeyWithModifier::plain(BareKey::Up))
            } else if c == '/' {
                Command::RequestFolder
            } else {
                Command::Ignore
            }
        } else if key.no_modifiers() {
            if c == '\n' {
                Command::Commit
            } else {
                Command::Forward(key)
            }
        } else {
            Command::Ignore
        },
        _ => Command::Ignore,
    }
}

/// What a key other than plain Escape and Ctrl with `c` means while the
/// question whether all other sessions are to be killed is open.
pub open spec fn confirm_command(key: KeyWithModifier) -> Command {
    if key.is_plain(BareKey::Char('y')) {
        Command::ConfirmKillAll
    } else if key.is_plain(BareKey::Char('n')) {
        Command::CancelKillAll
    } else {
        Command::Ignore
    }
}

/// What Ctrl with the character `c`, other than `c` itself, means on the
/// attach screen.
pub open spec fn attach_ctrl_command(c: char) -> Command {
    if c == '.' || c == 'l' {
        Command::ExpandResult
    } else if c == ',' || c == 'h' {
        Command::ShrinkResult
    } else if c == 'n' || c == 'j' {
        Command::SelectionDown
    } else if c == 'p' {
        Command::SelectionUp
    } else if c == 'k' {
        Command::KillToEndOrSelectionUp
    } else if c == 't' {
        Command::ToggleExpansion
    } else if c == 'r' {
        Command::StartRename
    } else if c == 'd' {
        Command::AskKillAll
    } else if c == 'x' {
        Command::DisconnectOthers
    } else if c == 'f' {
        Command::CursorRight
    } else if c == 'b' {
        Command::CursorLeft
    } else if c == 'a' {
        Command::CursorStart
    } else if c == 'e' {
        Command::CursorEnd
    } else if c == 'u' {
        Command::KillLine
    } else if c == 'w' {
        Command::DeleteWordBackward
    } else {
        Command::Ignore
    }
}

/// What Alt with the character `c` means on the attach screen, Ctrl not
/// being held. Alt and Shift with `x` is looked at before Alt with `x`.
pub open spec fn attach_alt_command(c: char, shift: bool) -> Command {
    if c == 'x' && shift {
        Command::KillLine
    } else if c == 'x' {
        Command::DeleteForward
    } else if c == 'd' {
        Command::DeleteWordForward
    } else {
        Command::Ignore
    }
}

/// What a key other than plain Escape and Ctrl with `c` means on the attach
/// screen while no question is open.
pub open spec fn attach_command(key: KeyWithModifier) -> Command {
    match key.bare_key {
        BareKey::Right => if key.no_modifiers() {
            Command::ExpandResult
        } else {
            Command::Ignore
        },
        BareKey::Left => if key.no_modifiers() {
            Command::ShrinkResult
        } else {
            Command::Ignore
        },
        BareKey::Down => if key.no_modifiers() {
            Command::SelectionDown
        } else {
            Command::Ignore
        },
        BareKey::Up => if key.no_modifiers() {
            Command::SelectionUp
        } else {
            Command::Ignore
        },
        BareKey::Enter => if key.no_modifiers() {
            Command::Commit
        } else {
            Command::Ignore
        },
        BareKey::Backspace => if key.no_modifiers() {
            Command::Backspace
        } else {
            Command::Ignore
        },
        BareKey::Delete => if key.no_modifiers() {
            Command::KillSelected
        } else {
            Command::Ignore
        },
        BareKey::Tab => tab_command(key),
        BareKey::Char(c) => if key.ctrl {
            attach_ctrl_command(c)
        } else if key.alt {
            attach_alt_command(c, key.shift)
        } else if key.no_modifiers() {
            if c == '\n' {
                Command::Commit
            } else {
                Command::TypeChar(c)
            }
        } else {
            Command::Ignore
        },
        _ => Command::Ignore,
    }
}

/// What a key other than plain Escape and Ctrl with `c` means on the
/// resurrect screen.
pub open spec fn resurrect_command(key: KeyWithModifier) -> Command {
    match key.bare_key {
        BareKey::Down => if key.no_modifiers() {
            Command::ResurrectDown
        } else {
            Command::Ignore
        },
        BareKey::Up => if key.no_modifiers() {
            Command::ResurrectUp
        } else {
            Command::Ignore
        },
        BareKey::Enter => if key.no_modifiers() {
            Command::Commit
        } else {
            Command::Ignore
        },
        BareKey::Backspace => if key.no_modifiers() {
            Command::ResurrectBackspace
        } else {
            Command::Ignore
        },
        BareKey::Delete => if key.no_modifiers() {
            Command::ResurrectDelete
        } else {
            Command::Ignore
        },
        BareKey::Tab => tab_command(key),
        BareKey::Char(c) => if key.ctrl {
            if c == 'n' || c == 'j' {
                Command::ResurrectDown
            } else if c == 'p' || c == 'k' {
                Command::ResurrectUp
            } else if c == 'd' {
                Command::ResurrectDeleteAll
            } else {
                Command::Ignore
            }
        } else if key.no_modifiers() {
            if c == '\n' {
                Command::Commit
            } else {
                Command::ResurrectChar(c)
            }
        } else {
            Command::Ignore
        },
        _ => Command::Ignore,
    }
}

/// The command that `key` stands for in `mode`. The two keys that can hide
/// the overlay are looked at first, on every screen and in every dialog;
/// then the table of the screen decides, and on the attach screen the table
/// of the open question before the table of the screen.
pub open spec fn command_for(mode: Mode, key: KeyWithModifier) -> Command {
    if key.is_plain(BareKey::Esc) {
        escape_command(mode, key)
    } else if key.is_ctrl('c') {
        ctrl_c_command(mode)
    } else {
        match mode.screen {
            ActiveScreen::New => new_session_command(key),
            ActiveScreen::Attach => if mode.confirming {
                confirm_command(key)
            } else {
                attach_command(key)
            },
            ActiveScreen::Resurrect => resurrect_command(key),
        }
    }
}

/// `command` if no modifier is held with `key`, and no command otherwise.
fn if_plain(key: &KeyWithModifier, command: Command) -> (res: Command)
    ensures
        res == if key.no_modifiers() {
            command
        } else {
            Command::Ignore
        },
{
    if key.has_no_modifiers() {
        command
    } else {
        Command::Ignore
    }
}

fn lookup_tab(key: &KeyWithModifier) -> (command: Command)
    ensures
        command == tab_command(*key),
{
    if key.has_no_modifiers() {
        Command::ToggleForward
    } else if key.shift {
        Command::ToggleBackward
    } else {
        Command::Ignore
    }
}

fn lookup_escape(mode: &Mode, key: &KeyWithModifier) -> (command: Command)
    ensures
        command == escape_command(*mode, *key),
{
    match mode.screen {
        ActiveScreen::Attach => {
            if mode.confirming {
                Command::CancelKillAll
            } else if mode.renaming {
                Command::CancelRename
            } else if !mode.standalone {
                Command::Hide
            } else {
                Command::Ignore
            }
        },
        ActiveScreen::New => {
            if !mode.standalone {
                Command::Hide
            } else {
                Command::Forward(*key)
            }
        },
        ActiveScreen::Resurrect => {
            if !mode.standalone {
                Command::Hide
            } else {
                Command::Ignore
            }
        },
    }
}

fn lookup_ctrl_c(mode: &Mode) -> (command: Command)
    ensures
        command == ctrl_c_command(*mode),
{
    if !mode.standalone {
        Command::Hide
    } else {
        match mode.screen {
            ActiveScreen::New => Command::ClearFolder,
            ActiveScreen::Attach => {
                if mode.confirming {
                    Command::CancelKillAll
                } else {
                    Command::ClearSearch
                }
            },
            ActiveScreen::Resurrect => Command::Ignore,
        }
    }
}

fn lookup_new_session(key: &KeyWithModifier) -> (command: Command)
    ensures
        command == new_session_command(*key),
{
    match key.bare_key {
        BareKey::Down | BareKey::Up | BareKey::Backspace => if_plain(key, Command::Forward(*key)),
        BareKey::Enter => if_plain(key, Command::Commit),
        BareKey::Tab => lookup_tab(key),
        BareKey::Char(c) => {
            if key.ctrl {
                if c == 'n' || c == 'j' {
                    Command::Forward(KeyWithModifier::new(BareKey::Down))
                } else if c == 'p' || c == 'k' {
                    Command::Forward(KeyWithModifier::new(BareKey::Up))
                } else if c == '/' {
                    Command::RequestFolder
                } else {
                    Command::Ignore
                }
            } else if key.has_no_modifiers() {
                if c == '\n' {
                    Command::Commit
                } else {
                    Command::Forward(*key)
                }
            } else {
                Command::Ignore
            }
        },
        _ => Command::Ignore,
    }
}

fn lookup_confirm(key: &KeyWithModifier) -> (command: Command)
    ensures
        command == confirm_command(*key),
{
    match key.bare_key {
        BareKey::Char(c) => {
            if c == 'y' {
                if_plain(key, Command::ConfirmKillAll)
            } else if c == 'n' {
                if_plain(key, Command::CancelKillAll)
            } else {
                Command::Ignore
            }
        },
        _ => Command::Ignore,
    }
}

fn lookup_attach_ctrl(c: char) -> (command: Command)
    ensures
        command == attach_ctrl_command(c),
{
    if c == '.' || c == 'l' {
        Command::ExpandResult
    } else if c == ',' || c == 'h' {
        Command::ShrinkResult
    } else if c == 'n' || c == 'j' {
        Command::SelectionDown
    } else if c == 'p' {
        Command::SelectionUp
    } else if c == 'k' {
        Command::KillToEndOrSelectionUp
    } else if c == 't' {
        Command::ToggleExpansion
    } else if c == 'r' {
        Command::StartRename
    } else if c == 'd' {
        Command::AskKillAll
    } else if c == 'x' {
        Command::DisconnectOthers
    } else if c == 'f' {
        Command::CursorRight
    } else if c == 'b' {
        Command::CursorLeft
    } else if c == 'a' {
        Command::CursorStart
    } else if c == 'e' {
        Command::CursorEnd
    } else if c == 'u' {
        Command::KillLine
    } else if c == 'w' {
        Command::DeleteWordBackward
    } else {
        Command::Ignore
    }
}

fn lookup_attach_alt(c: char, shift: bool) -> (command: Command)
    ensures
        command == attach_alt_command(c, shift),
{
    if c == 'x' && shift {
        Command::KillLine
    } else if c == 'x' {
        Command::DeleteForward
    } else if c == 'd' {
        Command::DeleteWordForward
    } else {
        Command::Ignore
    }
}

fn lookup_attach(key: &KeyWithModifier) -> (command: Command)
    ensures
        command == attach_command(*key),
{
    match key.bare_key {
        BareKey::Right => if_plain(key, Command::ExpandResult),
        BareKey::Left => if_plain(key, Command::ShrinkResult),
        BareKey::Down => if_plain(key, Command::SelectionDown),
        BareKey::Up => if_plain(key, Command::SelectionUp),
        BareKey::Enter => if_plain(key, Command::Commit),
        BareKey::Backspace => if_plain(key, Command::Backspace),
        BareKey::Delete => if_plain(key, Command::KillSelected),
        BareKey::Tab => lookup_tab(key),
        BareKey::Char(c) => {
            if key.ctrl {
                lookup_attach_ctrl(c)
            } else if key.alt {
                lookup_attach_alt(c, key.shift)
            } else if key.has_no_modifiers() {
                if c == '\n' {
                    Command::Commit
                } else {
                    Command::TypeChar(c)
                }
            } else {
                Command::Ignore
            }
        },
        _ => Command::Ignore,
    }
}

fn lookup_resurrect(key: &KeyWithModifier) -> (command: Command)
    ensures
        command == resurrect_command(*key),
{
    match key.bare_key {
        BareKey::Down => if_plain(key, Command::ResurrectDown),
        BareKey::Up => if_plain(key, Command::ResurrectUp),
        BareKey::Enter => if_plain(key, Command::Commit),
        BareKey::Backspace => if_plain(key, Command::ResurrectBackspace),
        BareKey::Delete => if_plain(key, Command::ResurrectDelete),
        BareKey::Tab => lookup_tab(key),
        BareKey::Char(c) => {
            if key.ctrl {
                if c == 'n' || c == 'j' {
                    Command::ResurrectDown
                } else if c == 'p' || c == 'k' {
                    Command::ResurrectUp
                } else if c == 'd' {
                    Command::ResurrectDeleteAll
                } else {
                    Command::Ignore
                }
            } else if key.has_no_modifiers() {
                if c == '\n' {
                    Command::Commit
                } else {
                    Command::ResurrectChar(c)
                }
            } else {
                Command::Ignore
            }
        },
        _ => Command::Ignore,
    }
}

/// Looks up the command that `key` stands for in `mode`.
pub fn lookup(mode: &Mode, key: &KeyWithModifier) -> (command: Command)
    ensures
        command == command_for(*mode, *key),
{
    let is_escape = match key.bare_key {
        BareKey::Esc => key.has_no_modifiers(),
        _ => false,
    };
    let is_ctrl_c = match key.bare_key {
        BareKey::Char(c) => c == 'c' && key.ctrl,
        _ => false,
    };
    if is_escape {
        lookup_escape(mode, key)
    } else if is_ctrl_c {
        lookup_ctrl_c(mode)
    } else {
        match mode.screen {
            ActiveScreen::New => lookup_new_session(key),
            ActiveScreen::Attach => {
                if mode.confirming {
                    lookup_confirm(key)
                } else {
                    lookup_attach(key)
                }
            },
            ActiveScreen::Resurrect => lookup_resurrect(key),
        }
    }
}

} // verus!
