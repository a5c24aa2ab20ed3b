//! The state of the switcher and the step it takes on a key press.

use crate::actions::{action_views, no_actions, ActionView, Outcome};
use crate::catalog::{text_of, CatalogView};
use crate::command::{command_for, Command, Mode};
use crate::key::KeyWithModifier;
use crate::requests::AsyncRequestTable;
use crate::screen::ActiveScreen;
use crate::text_field::{TextField, TextFieldView};
use crate::validation::{new_name_verdict, rename_verdict, RenameVerdict};
use vstd::prelude::*;

verus! {

/// The text of the error shown when a session is to be killed and none is
/// selected.
pub open spec fn must_select_text() -> Seq<char> {
    "Must select session before killing it."@
}

/// The text of the error shown when all other sessions are to be killed and
/// there is none.
pub open spec fn no_other_sessions_text() -> Seq<char> {
    "No other sessions to kill. Quit to kill the current one."@
}

/// The text of the error shown when the current session is selected with
/// neither a tab nor a pane.
pub open spec fn already_attached_text() -> Seq<char> {
    "Already attached..."@
}

/// The state of the switcher. It lives as long as the overlay does and is
/// changed by events only.
#[derive(Debug)]
pub struct State {
    /// The name of the session the overlay runs in, once the host has told
    /// it.
    pub session_name: Option<String>,
    /// The search field of the attach screen.
    pub search: TextField,
    /// The rename field of the attach screen, while it is open.
    pub renaming_session_name: Option<TextField>,
    /// The error that is shown, if one is.
    pub error: Option<String>,
    /// The screen that is shown.
    pub active_screen: ActiveScreen,
    /// Whether the overlay is the standalone welcome screen.
    pub is_welcome_screen: bool,
    /// Whether the question is open if all other sessions are to be killed.
    pub show_kill_all_sessions_warning: bool,
    /// The requests to the folder picker that are not answered yet.
    pub request_ids: AsyncRequestTable,
    /// Whether the client is a web client.
    pub is_web_client: bool,
}

/// A [`State`] with its strings as sequences of characters.
pub struct StateView {
    pub session_name: Option<Seq<char>>,
    pub search: TextFieldView,
    pub renaming: Option<TextFieldView>,
    pub error: Option<Seq<char>>,
    pub active_screen: ActiveScreen,
    pub is_welcome_screen: bool,
    pub show_kill_all_sessions_warning: bool,
    pub request_ids: Seq<Seq<char>>,
    pub is_web_client: bool,
}

/// What one event leads to: the state after it, the requests to the world
/// around, in order, and whether the screen has to be drawn again.
pub struct Step {
    pub state: StateView,
    pub actions: Seq<ActionView>,
    pub redraw: bool,
}

impl View for State {
    type V = StateView;

    open spec fn view(&self) -> StateView {
        StateView {
            session_name: text_of(self.session_name),
            search: self.search@,
            renaming: match self.renaming_session_name {
                Some(field) => Some(field@),
                None => None,
            },
            error: text_of(self.error),
            active_screen: self.active_screen,
            is_welcome_screen: self.is_welcome_screen,
            show_kill_all_sessions_warning: self.show_kill_all_sessions_warning,
            request_ids: self.request_ids@,
            is_web_client: self.is_web_client,
        }
    }
}

/// The step that `state` and `outcome` make together.
pub open spec fn step_of(state: StateView, outcome: Outcome) -> Step {
    Step {
        state,
        actions: action_views(outcome.actions@),
        redraw: outcome.should_render,
    }
}

impl StateView {
    /// The cursors of both fields are inside their texts.
    pub open spec fn wf(self) -> bool {
        &&& self.search.wf()
        &&& self.renaming matches Some(field) ==> field.wf()
    }

    /// The state at the start: nothing typed, no dialog open, no error, no
    /// request sent, and the screen that the presentation starts with.
    pub open spec fn initial(standalone: bool) -> StateView {
        StateView {
            session_name: None,
            search: TextFieldView::empty(),
            renaming: None,
            error: None,
            active_screen: ActiveScreen::initial(standalone),
            is_welcome_screen: standalone,
            show_kill_all_sessions_warning: false,
            request_ids: Seq::empty(),
            is_web_client: false,
        }
    }

    /// The screen and what is open on it.
    pub open spec fn mode(self) -> Mode {
        Mode {
            screen: self.active_screen,
            confirming: self.show_kill_all_sessions_warning,
            renaming: self.renaming is Some,
            standalone: self.is_welcome_screen,
        }
    }

    /// Nothing changes, nothing is asked and nothing is drawn.
    pub open spec fn stay(self) -> Step {
        Step { state: self, actions: no_actions(), redraw: false }
    }

    /// The state changes to `self`, nothing is asked, and the screen is
    /// drawn again.
    pub open spec fn redrawn(self) -> Step {
        Step { state: self, actions: no_actions(), redraw: true }
    }

    /// Nothing changes, `action` is asked, and the screen is drawn again.
    pub open spec fn ask(self, action: ActionView) -> Step {
        Step { state: self, actions: no_actions().push(action), redraw: true }
    }

    /// The same state with `text` as the error shown.
    pub open spec fn show_error(self, text: Seq<char>) -> StateView {
        StateView { error: Some(text), ..self }
    }

    /// The search field becomes `edited`, and the session list is told to
    /// filter by what it holds.
    pub open spec fn edit_search(self, edited: TextFieldView) -> Step {
        Step {
            state: StateView { search: edited, ..self },
            actions: no_actions().push(ActionView::UpdateSearchTerm(edited.content)),
            redraw: true,
        }
    }

    /// The search field is emptied, the session list is told to filter by
    /// nothing, and its selection goes back to its initial place.
    pub open spec fn cut_search(self) -> Step {
        Step {
            state: StateView { search: TextFieldView::empty(), ..self },
            actions: no_actions().push(ActionView::UpdateSearchTerm(Seq::empty())).push(
                ActionView::ResetSelectedIndex,
            ),
            redraw: true,
        }
    }

    /// A character is typed on the attach screen: it goes to the end of the
    /// rename field if that is open, and into the search field at the
    /// cursor if not.
    pub open spec fn type_char(self, c: char) -> Step {
        match self.renaming {
            Some(field) => StateView { renaming: Some(field.append(c)), ..self }.redrawn(),
            None => self.edit_search(self.search.insert(c)),
        }
    }

    /// Backspace on the attach screen: the rename field loses its last
    /// character, or is closed if it is empty; with no rename field open
    /// the search field loses the character before the cursor.
    pub open spec fn backspace(self) -> Step {
        match self.renaming {
            Some(field) => if field.content.len() == 0 {
                StateView { renaming: None, ..self }.redrawn()
            } else {
                StateView { renaming: Some(field.pop_last()), ..self }.redrawn()
            },
            None => if self.search.cursor > 0 {
                self.edit_search(self.search.backspace())
            } else {
                self.redrawn()
            },
        }
    }

    /// The commands that edit the search field. They do nothing while the
    /// rename field is open, and nothing where the field has nothing for
    /// them to work on; only cutting to the end of the line then falls back
    /// to moving the selection up.
    pub open spec fn edit(self, command: Command) -> Step {
        let search = self.search;
        let idle = self.renaming is Some;
        match command {
            Command::CursorRight => if !idle && search.cursor < search.content.len() {
                StateView { search: search.move_right(), ..self }.redrawn()
            } else {
                self.stay()
            },
            Command::CursorLeft => if !idle && search.cursor > 0 {
                StateView { search: search.move_left(), ..self }.redrawn()
            } else {
                self.stay()
            },
            Command::CursorStart => if !idle {
                StateView { search: search.move_to_start(), ..self }.redrawn()
            } else {
                self.stay()
            },
            Command::CursorEnd => if !idle {
                StateView { search: search.move_to_end(), ..self }.redrawn()
            } else {
                self.stay()
            },
            Command::KillToEndOrSelectionUp => if !idle && search.content.len() > 0 {
                self.edit_search(search.kill_to_end())
            } else {
                self.ask(ActionView::MoveSelectionUp)
            },
            Command::KillLine => if !idle && search.content.len() > 0 {
                self.cut_search()
            } else {
                self.stay()
            },
            Command::DeleteWordBackward => if !idle && search.cursor > 0 {
                self.edit_search(search.delete_word_backward())
            } else {
                self.stay()
            },
            Command::DeleteWordForward => if !idle && search.cursor < search.content.len() {
                self.edit_search(search.delete_word_forward())
            } else {
                self.stay()
            },
            Command::DeleteForward => if !idle && search.cursor < search.content.len() {
                self.edit_search(search.delete_forward())
            } else {
                self.stay()
            },
            _ => self.stay(),
        }
    }

    /// The search is cleared if there is one. With none, the overlay is
    /// hidden, unless it is the standalone welcome screen.
    pub open spec fn clear_search(self) -> Step {
        if self.search.content.len() > 0 {
            self.cut_search()
        } else if !self.is_welcome_screen {
            Step {
                state: self,
                actions: no_actions().push(ActionView::ResetSelectedIndex).push(
                    ActionView::HideSelf,
                ),
                redraw: true,
            }
        } else {
            self.redrawn()
        }
    }

    /// What follows a kill: the selection of the session list goes back to
    /// its initial place, and the search is cleared.
    pub open spec fn after_kill(self, killed: Seq<Seq<char>>) -> Step {
        Step {
            state: StateView { search: TextFieldView::empty(), ..self },
            actions: no_actions().push(ActionView::KillSessions(killed)).push(
                ActionView::ResetSelectedIndex,
            ).push(ActionView::UpdateSearchTerm(Seq::empty())),
            redraw: true,
        }
    }

    /// The selected session is killed. With none selected an error is
    /// shown.
    pub open spec fn kill_selected(self, catalog: CatalogView) -> Step {
        match catalog.selected_session {
            Some(selected) => self.after_kill(seq![selected.name]),
            None => self.show_error(must_select_text()).redrawn(),
        }
    }

    /// The question is opened if all other sessions are to be killed. With
    /// no other session an error is shown and the question stays closed.
    pub open spec fn ask_kill_all(self, catalog: CatalogView) -> Step {
        if catalog.other_session_names.len() == 0 {
            self.show_error(no_other_sessions_text()).redrawn()
        } else {
            StateView { show_kill_all_sessions_warning: true, ..self }.redrawn()
        }
    }

    /// The answer was yes: all other sessions are killed and the question
    /// is closed.
    pub open spec fn confirm_kill_all(self, catalog: CatalogView) -> Step {
        StateView { show_kill_all_sessions_warning: false, ..self }.after_kill(
            catalog.other_session_names,
        )
    }

    /// The name typed for a new session is checked. If the rules accept it
    /// the builder is told to commit; if not, the error is shown and
    /// nothing is committed.
    pub open spec fn commit_new_session(self, catalog: CatalogView) -> Step {
        match new_name_verdict(catalog.new_session_name, catalog.forbidden_session_names) {
            Ok(_) => self.ask(ActionView::CommitNewSession),
            Err(error) => self.show_error(error.text()).redrawn(),
        }
    }

    /// The name `name`, typed in the rename field, is checked. If the rules
    /// accept it, the rename field is closed, the session list is told of
    /// the new name, the new name is kept as that of the current session,
    /// and the host is asked to rename the session. A name that the session
    /// has already closes the field and changes nothing else. Any other
    /// name is refused: the error is shown and the rename field stays open
    /// with what was typed. The overlay is not hidden in any of these
    /// cases.
    pub open spec fn commit_rename(self, name: Seq<char>, catalog: CatalogView) -> Step {
        let closed = StateView { renaming: None, ..self };
        let verdict = rename_verdict(
            name,
            self.session_name,
            catalog.session_names,
            catalog.resurrectable_session_names,
        );
        match verdict.text() {
            Some(text) => self.show_error(text).redrawn(),
            None => if verdict == RenameVerdict::Accepted {
                Step {
                    state: StateView { session_name: Some(name), ..closed },
                    actions: match self.session_name {
                        Some(old_name) => no_actions().push(
                            ActionView::UpdateSessionName { old_name, new_name: name },
                        ),
                        None => no_actions(),
                    }.push(ActionView::RenameSession(name)),
                    redraw: true,
                }
            } else {
                closed.redrawn()
            },
        }
    }

    /// The error that attaching to the selected entry raises, if it raises
    /// one: the entry is the current session, with neither a tab nor a
    /// pane.
    pub open spec fn attach_error(catalog: CatalogView) -> Option<Seq<char>> {
        match catalog.selected_session {
            Some(selected) => if selected.is_current_session && selected.pane_id is None
                && selected.tab_position is None {
                Some(already_attached_text())
            } else {
                None
            },
            None => None,
        }
    }

    /// What the host is asked when the selected entry is attached to. In
    /// the current session the pane is focused if one is selected, else the
    /// tab if one is selected; another session is switched to, with the tab
    /// and the pane that are selected.
    pub open spec fn attach_actions(catalog: CatalogView) -> Seq<ActionView> {
        match catalog.selected_session {
            Some(selected) => if selected.is_current_session {
                match selected.pane_id {
                    Some((pane_id, is_plugin)) => if is_plugin {
                        no_actions().push(ActionView::FocusPluginPane(pane_id))
                    } else {
                        no_actions().push(ActionView::FocusTerminalPane(pane_id))
                    },
                    None => match selected.tab_position {
                        Some(position) => no_actions().push(ActionView::GoToTab(position)),
                        None => no_actions(),
                    },
                }
            } else {
                no_actions().push(
                    ActionView::SwitchSession {
                        name: selected.name,
                        tab_position: selected.tab_position,
                        pane_id: selected.pane_id,
                    },
                )
            },
            None => no_actions(),
        }
    }

    /// The selected entry of the session list is attached to. Whatever was
    /// selected, the selection then goes back to its initial place, the
    /// search is cleared, and the overlay is hidden unless it is the
    /// standalone welcome screen.
    pub open spec fn commit_attach(self, catalog: CatalogView) -> Step {
        Step {
            state: StateView {
                search: TextFieldView::empty(),
                error: match StateView::attach_error(catalog) {
                    Some(text) => Some(text),
                    None => self.error,
                },
                ..self
            },
            actions: StateView::attach_actions(catalog) + tidy_up(self.is_welcome_screen),
            redraw: true,
        }
    }

    /// The selected resurrectable session is resurrected, if one is
    /// selected. The overlay is left as it is.
    pub open spec fn commit_resurrect(self, catalog: CatalogView) -> Step {
        match catalog.selected_resurrectable {
            Some(name) => self.ask(ActionView::ResurrectSession(name)),
            None => self.redrawn(),
        }
    }

    /// The selection of the screen that is shown is committed.
    pub open spec fn commit(self, catalog: CatalogView) -> Step {
        match self.active_screen {
            ActiveScreen::New => self.commit_new_session(catalog),
            ActiveScreen::Attach => match self.renaming {
                Some(field) => self.commit_rename(field.content, catalog),
                None => self.commit_attach(catalog),
            },
            ActiveScreen::Resurrect => self.commit_resurrect(catalog),
        }
    }

    /// A request for a folder is recorded under `request_id`, and the
    /// helper is asked with that identifier.
    pub open spec fn request_folder(self, request_id: Seq<char>) -> Step {
        StateView { request_ids: self.request_ids.push(request_id), ..self }.ask(
            ActionView::RequestFolder { request_id },
        )
    }

    /// What `command` does to the state, and what it asks of the world
    /// around. `request_id` is the identifier that a request for a folder
    /// is sent under; no other command looks at it.
    pub open spec fn apply(self, command: Command, catalog: CatalogView, request_id: Seq<char>)
        -> Step {
        match command {
            Command::Ignore => self.stay(),
            Command::Hide => Step {
                state: self,
                actions: no_actions().push(ActionView::HideSelf),
                redraw: false,
            },
            Command::ToggleForward => StateView {
                active_screen: self.active_screen.next(),
                ..self
            }.redrawn(),
            Command::ToggleBackward => StateView {
                active_screen: self.active_screen.prev(),
                ..self
            }.redrawn(),
            Command::Commit => self.commit(catalog),
            Command::Forward(key) => self.ask(ActionView::NewSessionKey(key)),
            Command::RequestFolder => self.request_folder(request_id),
            Command::ClearFolder => self.ask(ActionView::ClearNewSessionFolder),
            Command::ExpandResult => self.ask(ActionView::ExpandResult),
            Command::ShrinkResult => self.ask(ActionView::ShrinkResult),
            Command::SelectionDown => self.ask(ActionView::MoveSelectionDown),
            Command::SelectionUp => self.ask(ActionView::MoveSelectionUp),
            Command::ToggleExpansion => Step {
                state: self,
                actions: no_actions().push(ActionView::ToggleExpansion).push(
                    ActionView::UpdateSearchTerm(self.search.content),
                ),
                redraw: true,
            },
            Command::TypeChar(c) => self.type_char(c),
            Command::Backspace => self.backspace(),
            Command::StartRename => StateView {
                renaming: Some(TextFieldView::empty()),
                ..self
            }.redrawn(),
            Command::CancelRename => StateView { renaming: None, ..self }.redrawn(),
            Command::KillSelected => self.kill_selected(catalog),
            Command::AskKillAll => self.ask_kill_all(catalog),
            Command::ConfirmKillAll => self.confirm_kill_all(catalog),
            Command::CancelKillAll => StateView {
                show_kill_all_sessions_warning: false,
                ..self
            }.redrawn(),
            Command::DisconnectOthers => Step {
                state: self,
                actions: no_actions().push(ActionView::DisconnectOtherClients),
                redraw: false,
            },
            Command::ClearSearch => self.clear_search(),
            Command::ResurrectDown => self.ask(ActionView::ResurrectMoveDown),
            Command::ResurrectUp => self.ask(ActionView::ResurrectMoveUp),
            Command::ResurrectChar(c) => self.ask(ActionView::ResurrectCharacter(c)),
            Command::ResurrectBackspace => self.ask(ActionView::ResurrectBackspace),
            Command::ResurrectDelete => self.ask(ActionView::ResurrectDeleteSelected),
            Command::ResurrectDeleteAll => self.ask(ActionView::ResurrectDeleteAll),
            _ => self.edit(command),
        }
    }

    /// Whether `key` asks for a folder in this state. Only such a key sends
    /// a request, and only for it an identifier is drawn.
    pub open spec fn asks_for_folder(self, key: KeyWithModifier) -> bool {
        self.error is None && command_for(self.mode(), key) == Command::RequestFolder
    }

    /// What `key` does on `screen`, whatever screen is shown: the key is
    /// looked up in the table of `screen`, with the dialogs and the
    /// presentation of this state, and the command found is applied.
    pub open spec fn on_screen(
        self,
        screen: ActiveScreen,
        key: KeyWithModifier,
        catalog: CatalogView,
        request_id: Seq<char>,
    ) -> Step {
        self.apply(command_for(Mode { screen, ..self.mode() }, key), catalog, request_id)
    }

    /// The step taken on a key press. While an error is shown, the key only
    /// takes the error away. Otherwise the key is looked up for the screen
    /// that is shown and the dialog that is open, and the command found is
    /// applied.
    pub open spec fn step(self, key: KeyWithModifier, catalog: CatalogView, request_id: Seq<char>)
        -> Step {
        if self.error is Some {
            StateView { error: None, ..self }.redrawn()
        } else {
            self.on_screen(self.active_screen, key, catalog, request_id)
        }
    }
}

/// What ends an attach: the selection of the session list goes back to its
/// initial place, the list is told to filter by nothing, and the overlay is
/// hidden unless it is the standalone welcome screen.
pub open spec fn tidy_up(standalone: bool) -> Seq<ActionView> {
    let tidy = no_actions().push(ActionView::ResetSelectedIndex).push(
        ActionView::UpdateSearchTerm(Seq::empty()),
    );
    if standalone {
        tidy
    } else {
        tidy.push(ActionView::HideSelf)
    }
}

/// The identifier for a request matters only to a key that asks for a
/// folder: for every other key, and while an error is shown, the step is the
/// same whatever the identifier is.
pub proof fn lemma_request_id_matters_only_for_folder(
    state: StateView,
    key: KeyWithModifier,
    catalog: CatalogView,
    first_id: Seq<char>,
    second_id: Seq<char>,
)
    requires
        !state.asks_for_folder(key),
    ensures
        state.step(key, catalog, first_id) == state.step(key, catalog, second_id),
{
}

} // verus!
