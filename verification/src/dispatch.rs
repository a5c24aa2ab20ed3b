//! The executable dispatcher: it takes the step that `StateView::step`
//! describes.

use crate::actions::{
    action_views, emit, kill_sessions, new_actions, no_actions, Action, ActionView, Outcome,
};
use crate::catalog::Catalog;
use crate::chars::views;
use crate::command::{lookup, Command, Mode};
use crate::key::KeyWithModifier;
use crate::requests::{fresh_request_id, is_request_id, AsyncRequestTable};
use crate::screen::ActiveScreen;
use crate::state::{
    lemma_request_id_matters_only_for_folder, step_of, tidy_up, State, StateView,
};
use crate::text_field::TextField;
use crate::validation::{validate_new_session_name, validate_rename, RenameVerdict};
use vstd::prelude::*;

verus! {

/// An outcome with no request in it.
fn quiet(should_render: bool) -> (out: Outcome)
    ensures
        out.should_render == should_render,
        action_views(out.actions@) == no_actions(),
{
    Outcome { should_render, actions: new_actions() }
}

/// An outcome with one request in it, and the screen to be drawn again.
fn asking(action: Action) -> (out: Outcome)
    ensures
        out.should_render,
        action_views(out.actions@) == no_actions().push(action@),
{
    let mut actions = new_actions();
    emit(&mut actions, action);
    Outcome { should_render: true, actions }
}

impl State {
    /// The cursors of both fields are inside their texts. Every constructor
    /// establishes this and every operation keeps it.
    pub open spec fn wf(&self) -> bool {
        self@.wf()
    }

    /// The state at the start. `standalone` says whether the overlay is the
    /// standalone welcome screen.
    pub fn new(standalone: bool) -> (state: State)
        ensures
            state.wf(),
            state@ == StateView::initial(standalone),
    {
        State {
            session_name: None,
            search: TextField::new(),
            renaming_session_name: None,
            error: None,
            active_screen: if standalone {
                ActiveScreen::New
            } else {
                ActiveScreen::Attach
            },
            is_welcome_screen: standalone,
            show_kill_all_sessions_warning: false,
            request_ids: AsyncRequestTable::new(),
            is_web_client: false,
        }
    }

    /// The screen and what is open on it.
    pub fn mode(&self) -> (mode: Mode)
        ensures
            mode == self@.mode(),
    {
        Mode {
            screen: self.active_screen,
            confirming: self.show_kill_all_sessions_warning,
            renaming: self.renaming_session_name.is_some(),
            standalone: self.is_welcome_screen,
        }
    }

    /// Shows `text` as the error.
    pub fn show_error(&mut self, text: &str)
        ensures
            final(self)@ == old(self)@.show_error(text@),
    {
        self.error = Some(text.to_owned());
    }

    /// Goes to the next screen. The fields, the dialogs and the selection
    /// stay as they are.
    pub fn toggle_active_screen(&mut self)
        ensures
            final(self)@ == (StateView {
                active_screen: old(self)@.active_screen.next(),
                ..old(self)@
            }),
    {
        self.active_screen = self.active_screen.toggle_forward();
    }

    /// Goes to the screen before. The fields, the dialogs and the selection
    /// stay as they are.
    pub fn toggle_active_screen_reverse(&mut self)
        ensures
            final(self)@ == (StateView {
                active_screen: old(self)@.active_screen.prev(),
                ..old(self)@
            }),
    {
        self.active_screen = self.active_screen.toggle_backward();
    }

    /// Tells the session list to filter by what the search field holds now.
    fn search_changed(&self) -> (out: Outcome)
        ensures
            out.should_render,
            action_views(out.actions@) == no_actions().push(
                ActionView::UpdateSearchTerm(self@.search.content),
            ),
    {
        asking(Action::UpdateSearchTerm(self.search.text()))
    }

    /// Empties the search field and tells the session list.
    fn cut_search(&mut self) -> (out: Outcome)
        requires
            old(self).wf(),
        ensures
            final(self).wf(),
            step_of(final(self)@, out) == old(self)@.cut_search(),
    {
        self.search.kill_whole_line();
        let mut actions = new_actions();
        emit(&mut actions, Action::UpdateSearchTerm(String::new()));
        emit(&mut actions, Action::ResetSelectedIndex);
        Outcome { should_render: true, actions }
    }

    fn type_char(&mut self, c: char) -> (out: Outcome)
        requires
            old(self).wf(),
        ensures
            final(self).wf(),
            step_of(final(self)@, out) == old(self)@.type_char(c),
    {
        let renaming = self.renaming_session_name.take();
        match renaming {
            Some(mut field) => {
                field.append(c);
                self.renaming_session_name = Some(field);
                quiet(true)
            },
            None => {
                self.search.insert(c);
                self.search_changed()
            },
        }
    }

    fn backspace(&mut self) -> (out: Outcome)
        requires
            old(self).wf(),
        ensures
            final(self).wf(),
            step_of(final(self)@, out) == old(self)@.backspace(),
    {
        let renaming = self.renaming_session_name.take();
        match renaming {
            Some(mut field) => {
                if !field.is_empty() {
                    field.pop_last();
                    self.renaming_session_name = Some(field);
                }
                quiet(true)
            },
            None => {
                if self.search.cursor() > 0 {
                    self.search.backspace();
                    self.search_changed()
                } else {
                    quiet(true)
                }
            },
        }
    }

    fn edit(&mut self, command: Command) -> (out: Outcome)
        requires
            old(self).wf(),
        ensures
            final(self).wf(),
            step_of(final(self)@, out) == old(self)@.edit(command),
    {
        let idle = self.renaming_session_name.is_some();
        let cursor = self.search.cursor();
        let len = self.search.len();
        match command {
            Command::CursorRight => {
                if !idle && cursor < len {
                    self.search.move_right();
                    quiet(true)
                } else {
                    quiet(false)
                }
            },
            Command::CursorLeft => {
                if !idle && cursor > 0 {
                    self.search.move_left();
                    quiet(true)
                } else {
                    quiet(false)
                }
            },
            Command::CursorStart => {
                if !idle {
                    self.search.move_to_start();
                    quiet(true)
                } else {
                    quiet(false)
                }
            },
            Command::CursorEnd => {
                if !idle {
                    self.search.move_to_end();
                    quiet(true)
                } else {
                    quiet(false)
                }
            },
            Command::KillToEndOrSelectionUp => {
                if !idle && len > 0 {
                    self.search.kill_to_end();
                    self.search_changed()
                } else {
                    asking(Action::MoveSelectionUp)
                }
            },
            Command::KillLine => {
                if !idle && len > 0 {
                    self.cut_search()
                } else {
                    quiet(false)
                }
            },
            Command::DeleteWordBackward => {
                if !idle && cursor > 0 {
                    self.search.delete_word_backward();
                    self.search_changed()
                } else {
                    quiet(false)
                }
            },
            Command::DeleteWordForward => {
                if !idle && cursor < len {
                    self.search.delete_word_forward();
                    self.search_changed()
                } else {
                    quiet(false)
                }
            },
            Command::DeleteForward => {
                if !idle && cursor < len {
                    self.search.delete_forward();
                    self.search_changed()
                } else {
                    quiet(false)
                }
            },
            _ => quiet(false),
        }
    }

    fn clear_search(&mut self) -> (out: Outcome)
        requires
            old(self).wf(),
        ensures
            final(self).wf(),
            step_of(final(self)@, out) == old(self)@.clear_search(),
    {
        if !self.search.is_empty() {
            self.cut_search()
        } else if !self.is_welcome_screen {
            let mut actions = new_actions();
            emit(&mut actions, Action::ResetSelectedIndex);
            emit(&mut actions, Action::HideSelf);
            Outcome { should_render: true, actions }
        } else {
            quiet(true)
        }
    }

    fn after_kill(&mut self, killed: &Vec<String>) -> (out: Outcome)
        requires
            old(self).wf(),
        ensures
            final(self).wf(),
            step_of(final(self)@, out) == old(self)@.after_kill(views(killed@)),
    {
        let mut actions = new_actions();
        emit(&mut actions, kill_sessions(killed));
        emit(&mut actions, Action::ResetSelectedIndex);
        self.search.kill_whole_line();
        emit(&mut actions, Action::UpdateSearchTerm(String::new()));
        Outcome { should_render: true, actions }
    }

    fn kill_selected(&mut self, catalog: &Catalog) -> (out: Outcome)
        requires
            old(self).wf(),
        ensures
            final(self).wf(),
            step_of(final(self)@, out) == old(self)@.kill_selected(catalog@),
    {
        match &catalog.selected_session {
            Some(selected) => {
                let mut killed: Vec<String> = Vec::new();
                killed.push(selected.name.clone());
                assert(views(killed@) =~= seq![selected.name@]);
                self.after_kill(&killed)
            },
            None => {
                self.show_error("Must select session before killing it.");
                quiet(true)
            },
        }
    }

    fn ask_kill_all(&mut self, catalog: &Catalog) -> (out: Outcome)
        requires
            old(self).wf(),
        ensures
            final(self).wf(),
            step_of(final(self)@, out) == old(self)@.ask_kill_all(catalog@),
    {
        if catalog.other_session_names.len() == 0 {
            self.show_error("No other sessions to kill. Quit to kill the current one.");
        } else {
            self.show_kill_all_sessions_warning = true;
        }
        quiet(true)
    }

    fn confirm_kill_all(&mut self, catalog: &Catalog) -> (out: Outcome)
        requires
            old(self).wf(),
        ensures
            final(self).wf(),
            step_of(final(self)@, out) == old(self)@.confirm_kill_all(catalog@),
    {
        self.show_kill_all_sessions_warning = false;
        self.after_kill(&catalog.other_session_names)
    }

    fn commit_new_session(&mut self, catalog: &Catalog) -> (out: Outcome)
        requires
            old(self).wf(),
        ensures
            final(self).wf(),
            step_of(final(self)@, out) == old(self)@.commit_new_session(catalog@),
    {
        match validate_new_session_name(&catalog.new_session_name, &catalog.forbidden_session_names)
        {
            Ok(_) => asking(Action::CommitNewSession),
            Err(error) => {
                self.show_error(error.message());
                quiet(true)
            },
        }
    }

    /// Sets the name of the current session to `new_name`, and has the
    /// session list show the session under it.
    pub fn update_current_session_name_in_ui(&mut self, new_name: &String) -> (actions: Vec<Action>)
        ensures
            final(self)@ == (StateView { session_name: Some(new_name@), ..old(self)@ }),
            action_views(actions@) == match old(self)@.session_name {
                Some(old_name) => no_actions().push(
                    ActionView::UpdateSessionName {
                        old_name,
                        new_name: new_name@,
                    },
                ),
                None => no_actions(),
            },
    {
        let mut actions = new_actions();
        let previous = self.session_name.take();
        match previous {
            Some(old_name) => {
                emit(
                    &mut actions,
                    Action::UpdateSessionName { old_name, new_name: new_name.clone() },
                );
            },
            None => {},
        }
        self.session_name = Some(new_name.clone());
        actions
    }

    fn commit_rename(&mut self, catalog: &Catalog) -> (out: Outcome)
        requires
            old(self).wf(),
            old(self)@.renaming is Some,
        ensures
            final(self).wf(),
            step_of(final(self)@, out) == old(self)@.commit_rename(
                old(self)@.renaming->0.content,
                catalog@,
            ),
    {
        let renaming = self.renaming_session_name.take();
        match renaming {
            Some(field) => {
                let name = field.text();
                let verdict = validate_rename(
                    &name,
                    &self.session_name,
                    &catalog.session_names,
                    &catalog.resurrectable_session_names,
                );
                match verdict.message() {
                    Some(text) => {
                        self.renaming_session_name = Some(field);
                        self.show_error(text);
                        quiet(true)
                    },
                    None => {
                        match verdict {
                            RenameVerdict::Accepted => {
                                let mut actions = self.update_current_session_name_in_ui(&name);
                                emit(&mut actions, Action::RenameSession(name));
                                Outcome { should_render: true, actions }
                            },
                            _ => quiet(true),
                        }
                    },
                }
            },
            None => quiet(true),
        }
    }

    fn commit_attach(&mut self, catalog: &Catalog) -> (out: Outcome)
        requires
            old(self).wf(),
        ensures
            final(self).wf(),
            step_of(final(self)@, out) == old(self)@.commit_attach(catalog@),
    {
        let mut actions = new_actions();
        match &catalog.selected_session {
            Some(selected) => {
                if selected.is_current_session {
                    match selected.pane_id {
                        Some((pane_id, is_plugin)) => {
                            if is_plugin {
                                emit(&mut actions, Action::FocusPluginPane(pane_id));
                            } else {
                                emit(&mut actions, Action::FocusTerminalPane(pane_id));
                            }
                        },
                        None => {
                            match selected.tab_position {
                                Some(position) => {
                                    emit(&mut actions, Action::GoToTab(position));
                                },
                                None => {
                                    self.show_error("Already attached...");
                                },
                            }
                        },
                    }
                } else {
                    emit(
                        &mut actions,
                        Action::SwitchSession {
                            name: selected.name.clone(),
                            tab_position: selected.tab_position,
                            pane_id: selected.pane_id,
                        },
                    );
                }
            },
            None => {},
        }
        let ghost attached = action_views(actions@);
        emit(&mut actions, Action::ResetSelectedIndex);
        self.search.kill_whole_line();
        emit(&mut actions, Action::UpdateSearchTerm(String::new()));
        if !self.is_welcome_screen {
            emit(&mut actions, Action::HideSelf);
        }
        assert(action_views(actions@) =~= attached + tidy_up(
            self.is_welcome_screen,
        ));
        Outcome { should_render: true, actions }
    }

    fn commit_resurrect(&mut self, catalog: &Catalog) -> (out: Outcome)
        ensures
            final(self)@ == old(self)@,
            step_of(final(self)@, out) == old(self)@.commit_resurrect(catalog@),
    {
        match &catalog.selected_resurrectable {
            Some(name) => asking(Action::ResurrectSession(name.clone())),
            None => quiet(true),
        }
    }

    /// Commits the selection of the screen that is shown, and returns what
    /// is to be asked of the world around for it. On the screen for new
    /// sessions the name is checked first; on the attach screen a rename
    /// that is open is carried out, and otherwise the selected entry is
    /// attached to; on the resurrect screen the selected session is
    /// resurrected. A name that is refused raises an error and leaves what
    /// was typed as it is.
    pub fn handle_selection(&mut self, catalog: &Catalog) -> (actions: Vec<Action>)
        requires
            old(self).wf(),
        ensures
            final(self).wf(),
            final(self)@ == old(self)@.commit(catalog@).state,
            action_views(actions@) == old(self)@.commit(catalog@).actions,
    {
        self.commit(catalog).actions
    }

    fn commit(&mut self, catalog: &Catalog) -> (out: Outcome)
        requires
            old(self).wf(),
        ensures
            final(self).wf(),
            step_of(final(self)@, out) == old(self)@.commit(catalog@),
    {
        match self.active_screen {
            ActiveScreen::New => self.commit_new_session(catalog),
            ActiveScreen::Attach => {
                if self.renaming_session_name.is_some() {
                    self.commit_rename(catalog)
                } else {
                    self.commit_attach(catalog)
                }
            },
            ActiveScreen::Resurrect => self.commit_resurrect(catalog),
        }
    }

    /// Records a request for a folder under `request_id` and returns the
    /// request to the helper that carries the identifier.
    pub fn request_folder(&mut self, request_id: String) -> (out: Outcome)
        ensures
            step_of(final(self)@, out) == old(self)@.request_folder(request_id@),
    {
        self.request_ids.issue(request_id.clone());
        asking(Action::RequestFolder { request_id })
    }

    /// Applies `command`. `request_id` is used only where the command asks
    /// for a folder.
    pub fn apply(&mut self, command: Command, catalog: &Catalog, request_id: String) -> (out:
        Outcome)
        requires
            old(self).wf(),
        ensures
            final(self).wf(),
            step_of(final(self)@, out) == old(self)@.apply(command, catalog@, request_id@),
    {
        match command {
            Command::Ignore => quiet(false),
            Command::Hide => {
                let mut out = asking(Action::HideSelf);
                out.should_render = false;
                out
            },
            Command::ToggleForward => {
                self.toggle_active_screen();
                quiet(true)
            },
            Command::ToggleBackward => {
                self.toggle_active_screen_reverse();
                quiet(true)
            },
            Command::Commit => self.commit(catalog),
            Command::Forward(key) => asking(Action::NewSessionKey(key)),
            Command::RequestFolder => self.request_folder(request_id),
            Command::ClearFolder => asking(Action::ClearNewSessionFolder),
            Command::ExpandResult => asking(Action::ExpandResult),
            Command::ShrinkResult => asking(Action::ShrinkResult),
            Command::SelectionDown => asking(Action::MoveSelectionDown),
            Command::SelectionUp => asking(Action::MoveSelectionUp),
            Command::ToggleExpansion => {
                let mut actions = new_actions();
                emit(&mut actions, Action::ToggleExpansion);
                emit(&mut actions, Action::UpdateSearchTerm(self.search.text()));
                Outcome { should_render: true, actions }
            },
            Command::TypeChar(c) => self.type_char(c),
            Command::Backspace => self.backspace(),
            Command::StartRename => {
                self.renaming_session_name = Some(TextField::new());
                quiet(true)
            },
            Command::CancelRename => {
                self.renaming_session_name = None;
                quiet(true)
            },
            Command::KillSelected => self.kill_selected(catalog),
            Command::AskKillAll => self.ask_kill_all(catalog),
            Command::ConfirmKillAll => self.confirm_kill_all(catalog),
            Command::CancelKillAll => {
                self.show_kill_all_sessions_warning = false;
                quiet(true)
            },
            Command::DisconnectOthers => {
                let mut out = asking(Action::DisconnectOtherClients);
                out.should_render = false;
                out
            },
            Command::ClearSearch => self.clear_search(),
            Command::ResurrectDown => asking(Action::ResurrectMoveDown),
            Command::ResurrectUp => asking(Action::ResurrectMoveUp),
            Command::ResurrectChar(c) => asking(Action::ResurrectCharacter(c)),
            Command::ResurrectBackspace => asking(Action::ResurrectBackspace),
            Command::ResurrectDelete => asking(Action::ResurrectDeleteSelected),
            Command::ResurrectDeleteAll => asking(Action::ResurrectDeleteAll),
            _ => self.edit(command),
        }
    }

    /// Handles `key` by the table of `screen`.
    fn handle_key_on(
        &mut self,
        screen: ActiveScreen,
        key: &KeyWithModifier,
        catalog: &Catalog,
        request_id: String,
    ) -> (out: Outcome)
        requires
            old(self).wf(),
        ensures
            final(self).wf(),
            step_of(final(self)@, out) == old(self)@.on_screen(
                screen,
                *key,
                catalog@,
                request_id@,
            ),
    {
        let shown = self.mode();
        let mode = Mode { screen, ..shown };
        let command = lookup(&mode, key);
        self.apply(command, catalog, request_id)
    }

    /// Handles a key press by the table of the screen for new sessions.
    /// `request_id` is the identifier under which a request for a folder is
    /// sent if the key asks for one.
    pub fn handle_new_session_key(
        &mut self,
        key: &KeyWithModifier,
        catalog: &Catalog,
        request_id: String,
    ) -> (out: Outcome)
        requires
            old(self).wf(),
        ensures
            final(self).wf(),
            step_of(final(self)@, out) == old(self)@.on_screen(
                ActiveScreen::New,
                *key,
                catalog@,
                request_id@,
            ),
    {
        self.handle_key_on(ActiveScreen::New, key, catalog, request_id)
    }

    /// Handles a key press by the tables of the attach screen: that of the
    /// question if it is open, that of the screen otherwise.
    pub fn handle_attach_to_session(&mut self, key: &KeyWithModifier, catalog: &Catalog) -> (out:
        Outcome)
        requires
            old(self).wf(),
        ensures
            final(self).wf(),
            step_of(final(self)@, out) == old(self)@.on_screen(
                ActiveScreen::Attach,
                *key,
                catalog@,
                Seq::empty(),
            ),
    {
        self.handle_key_on(ActiveScreen::Attach, key, catalog, String::new())
    }

    /// Handles a key press by the table of the resurrect screen.
    pub fn handle_resurrect_session_key(&mut self, key: &KeyWithModifier, catalog: &Catalog) -> (out:
        Outcome)
        requires
            old(self).wf(),
        ensures
            final(self).wf(),
            step_of(final(self)@, out) == old(self)@.on_screen(
                ActiveScreen::Resurrect,
                *key,
                catalog@,
                Seq::empty(),
            ),
    {
        self.handle_key_on(ActiveScreen::Resurrect, key, catalog, String::new())
    }

    /// Handles a key press, with `request_id` as the identifier under which
    /// a request for a folder is sent if the key asks for one.
    pub fn handle_key_with_request_id(
        &mut self,
        key: &KeyWithModifier,
        catalog: &Catalog,
        request_id: String,
    ) -> (out: Outcome)
        requires
            old(self).wf(),
        ensures
            final(self).wf(),
            step_of(final(self)@, out) == old(self)@.step(*key, catalog@, request_id@),
    {
        if self.error.is_some() {
            self.error = None;
            return quiet(true);
        }
        match self.active_screen {
            ActiveScreen::New => self.handle_new_session_key(key, catalog, request_id),
            ActiveScreen::Attach => {
                proof {
                    lemma_request_id_matters_only_for_folder(
                        self@,
                        *key,
                        catalog@,
                        Seq::empty(),
                        request_id@,
                    );
                }
                self.handle_attach_to_session(key, catalog)
            },
            ActiveScreen::Resurrect => {
                proof {
                    lemma_request_id_matters_only_for_folder(
                        self@,
                        *key,
                        catalog@,
                        Seq::empty(),
                        request_id@,
                    );
                }
                self.handle_resurrect_session_key(key, catalog)
            },
        }
    }

    /// Handles a key press. Where the key asks for a folder, a fresh
    /// identifier is drawn for the request; no other key draws one.
    pub fn handle_key(&mut self, key: &KeyWithModifier, catalog: &Catalog) -> (out: Outcome)
        requires
            old(self).wf(),
        ensures
            final(self).wf(),
            old(self)@.asks_for_folder(*key) ==> exists|request_id: Seq<char>|
                is_request_id(request_id) && step_of(final(self)@, out) == old(self)@.step(
                    *key,
                    catalog@,
                    request_id,
                ),
            !old(self)@.asks_for_folder(*key) ==> step_of(final(self)@, out) == old(self)@.step(
                *key,
                catalog@,
                Seq::empty(),
            ),
    {
        let mode = self.mode();
        let asks_for_folder = self.error.is_none() && match lookup(&mode, key) {
            Command::RequestFolder => true,
            _ => false,
        };
        if asks_for_folder {
            let request_id = fresh_request_id();
            let ghost id = request_id@;
            let out = self.handle_key_with_request_id(key, catalog, request_id);
            assert(is_request_id(id) && step_of(self@, out) == old(self)@.step(
                *key,
                catalog@,
                id,
            ));
            out
        } else {
            self.handle_key_with_request_id(key, catalog, String::new())
        }
    }
}

impl Default for State {
    fn default() -> (state: State)
        ensures
            state.wf(),
            state@ == StateView::initial(false),
    {
        State::new(false)
    }
}

} // verus!
