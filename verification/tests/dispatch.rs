use session_manager::actions::{Action, Outcome};
use session_manager::catalog::{Catalog, SelectedSession};
use session_manager::command::{lookup, Command, Mode};
use session_manager::key::{BareKey, KeyModifier, KeyWithModifier};
use session_manager::screen::ActiveScreen;
use session_manager::state::State;
use session_manager::text_field::TextField;

fn plain(key: BareKey) -> KeyWithModifier {
    KeyWithModifier::new(key)
}

fn ch(c: char) -> KeyWithModifier {
    KeyWithModifier::new(BareKey::Char(c))
}

fn ctrl(c: char) -> KeyWithModifier {
    ch(c).with_ctrl_modifier()
}

fn alt(c: char) -> KeyWithModifier {
    ch(c).with_alt_modifier()
}

fn names(list: &[&str]) -> Vec<String> {
    list.iter().map(|s| s.to_string()).collect()
}

fn attach_state() -> State {
    State::new(false)
}

fn state_on(screen: ActiveScreen, standalone: bool) -> State {
    let mut state = State::new(standalone);
    state.active_screen = screen;
    state
}

fn searching(text: &str, cursor: usize) -> State {
    let mut state = attach_state();
    state.search = TextField::from_parts(text.chars().collect(), cursor).unwrap();
    state
}

fn selected(name: &str, tab: Option<usize>, pane: Option<(u32, bool)>, current: bool) -> Catalog {
    let mut catalog = Catalog::empty();
    catalog.selected_session = Some(SelectedSession {
        name: name.to_string(),
        tab_position: tab,
        pane_id: pane,
        is_current_session: current,
    });
    catalog
}

fn press(state: &mut State, key: KeyWithModifier) -> Outcome {
    state.handle_key(&key, &Catalog::empty())
}

fn search_of(state: &State) -> (String, usize) {
    (state.search.text(), state.search.cursor())
}

fn rename_of(state: &State) -> Option<String> {
    state.renaming_session_name.as_ref().map(|f| f.text())
}

#[test]
fn initial_state() {
    let state = State::new(false);
    assert_eq!(state.active_screen, ActiveScreen::Attach);
    assert!(!state.is_welcome_screen);
    assert!(state.error.is_none());
    assert!(state.session_name.is_none());
    assert!(state.renaming_session_name.is_none());
    assert!(!state.show_kill_all_sessions_warning);
    assert_eq!(state.request_ids.len(), 0);
    assert_eq!(search_of(&state), (String::new(), 0));
    let welcome = State::new(true);
    assert_eq!(welcome.active_screen, ActiveScreen::New);
    assert!(welcome.is_welcome_screen);
    let default = State::default();
    assert_eq!(default.active_screen, ActiveScreen::Attach);
}

#[test]
fn any_key_clears_the_error_and_does_nothing_else() {
    let mut state = searching("abc", 3);
    state.show_error("broken");
    assert_eq!(state.error, Some("broken".to_string()));
    let out = press(&mut state, plain(BareKey::Esc));
    assert_eq!(out, Outcome { should_render: true, actions: vec![] });
    assert!(state.error.is_none());
    assert_eq!(search_of(&state), ("abc".to_string(), 3));
    assert_eq!(state.active_screen, ActiveScreen::Attach);
}

#[test]
fn error_consumes_a_typed_character() {
    let mut state = attach_state();
    state.show_error("broken");
    let out = press(&mut state, ch('x'));
    assert_eq!(out, Outcome { should_render: true, actions: vec![] });
    assert_eq!(search_of(&state), (String::new(), 0));
    let out = press(&mut state, ch('x'));
    assert_eq!(
        out,
        Outcome { should_render: true, actions: vec![Action::UpdateSearchTerm("x".to_string())] }
    );
}

#[test]
fn escape_hides_the_overlay_on_every_screen() {
    for screen in [ActiveScreen::New, ActiveScreen::Attach, ActiveScreen::Resurrect] {
        let mut state = state_on(screen, false);
        let out = press(&mut state, plain(BareKey::Esc));
        assert_eq!(out, Outcome { should_render: false, actions: vec![Action::HideSelf] });
        assert_eq!(state.active_screen, screen);
    }
}

#[test]
fn ctrl_c_hides_the_overlay_on_every_screen() {
    for screen in [ActiveScreen::New, ActiveScreen::Attach, ActiveScreen::Resurrect] {
        let mut state = state_on(screen, false);
        state.search = TextField::from_text("abc");
        let out = press(&mut state, ctrl('c'));
        assert_eq!(out, Outcome { should_render: false, actions: vec![Action::HideSelf] });
        assert_eq!(search_of(&state), ("abc".to_string(), 3));
    }
}

#[test]
fn escape_on_the_welcome_screen_does_not_hide() {
    let mut new = state_on(ActiveScreen::New, true);
    let out = press(&mut new, plain(BareKey::Esc));
    assert_eq!(
        out,
        Outcome {
            should_render: true,
            actions: vec![Action::NewSessionKey(plain(BareKey::Esc))],
        }
    );
    let mut resurrect = state_on(ActiveScreen::Resurrect, true);
    let out = press(&mut resurrect, plain(BareKey::Esc));
    assert_eq!(out, Outcome { should_render: false, actions: vec![] });
    let mut attach = state_on(ActiveScreen::Attach, true);
    let out = press(&mut attach, plain(BareKey::Esc));
    assert_eq!(out, Outcome { should_render: false, actions: vec![] });
}

#[test]
fn escape_with_a_modifier_is_not_the_quit_key() {
    let mut state = attach_state();
    let out = press(&mut state, plain(BareKey::Esc).with_shift_modifier());
    assert_eq!(out, Outcome { should_render: false, actions: vec![] });
}

#[test]
fn escape_closes_the_rename_field_before_it_hides() {
    let mut state = attach_state();
    press(&mut state, ctrl('r'));
    assert_eq!(rename_of(&state), Some(String::new()));
    let out = press(&mut state, plain(BareKey::Esc));
    assert_eq!(out, Outcome { should_render: true, actions: vec![] });
    assert_eq!(rename_of(&state), None);
    let out = press(&mut state, plain(BareKey::Esc));
    assert_eq!(out, Outcome { should_render: false, actions: vec![Action::HideSelf] });
}

#[test]
fn escape_closes_the_question_before_it_hides() {
    let mut state = attach_state();
    state.show_kill_all_sessions_warning = true;
    let out = press(&mut state, plain(BareKey::Esc));
    assert_eq!(out, Outcome { should_render: true, actions: vec![] });
    assert!(!state.show_kill_all_sessions_warning);
}

#[test]
fn escape_closes_the_question_before_the_rename_field() {
    let mut state = attach_state();
    state.show_kill_all_sessions_warning = true;
    state.renaming_session_name = Some(TextField::from_text("ab"));
    press(&mut state, plain(BareKey::Esc));
    assert!(!state.show_kill_all_sessions_warning);
    assert_eq!(rename_of(&state), Some("ab".to_string()));
    press(&mut state, plain(BareKey::Esc));
    assert_eq!(rename_of(&state), None);
}

#[test]
fn a_dialog_of_the_attach_screen_is_not_open_on_another_screen() {
    let mut state = state_on(ActiveScreen::New, false);
    state.renaming_session_name = Some(TextField::from_text("ab"));
    let out = press(&mut state, plain(BareKey::Esc));
    assert_eq!(out, Outcome { should_render: false, actions: vec![Action::HideSelf] });
    assert_eq!(rename_of(&state), Some("ab".to_string()));
}

#[test]
fn tab_cycles_the_screens_and_keeps_the_fields() {
    let mut state = searching("abc", 2);
    state.renaming_session_name = Some(TextField::from_text("new"));
    let out = press(&mut state, plain(BareKey::Tab));
    assert_eq!(out, Outcome { should_render: true, actions: vec![] });
    assert_eq!(state.active_screen, ActiveScreen::Resurrect);
    press(&mut state, plain(BareKey::Tab));
    assert_eq!(state.active_screen, ActiveScreen::New);
    press(&mut state, plain(BareKey::Tab));
    assert_eq!(state.active_screen, ActiveScreen::Attach);
    press(&mut state, plain(BareKey::Tab));
    assert_eq!(state.active_screen, ActiveScreen::Resurrect);
    assert_eq!(search_of(&state), ("abc".to_string(), 2));
    assert_eq!(rename_of(&state), Some("new".to_string()));
}

#[test]
fn shift_tab_cycles_backward() {
    let mut state = state_on(ActiveScreen::New, false);
    let key = plain(BareKey::Tab).with_shift_modifier();
    let out = press(&mut state, key);
    assert_eq!(out, Outcome { should_render: true, actions: vec![] });
    assert_eq!(state.active_screen, ActiveScreen::Resurrect);
    press(&mut state, key);
    assert_eq!(state.active_screen, ActiveScreen::Attach);
    press(&mut state, key);
    assert_eq!(state.active_screen, ActiveScreen::New);
}

#[test]
fn toggle_methods_change_only_the_screen() {
    let mut state = searching("abc", 1);
    state.toggle_active_screen();
    assert_eq!(state.active_screen, ActiveScreen::Resurrect);
    state.toggle_active_screen_reverse();
    state.toggle_active_screen_reverse();
    assert_eq!(state.active_screen, ActiveScreen::New);
    assert_eq!(search_of(&state), ("abc".to_string(), 1));
}

#[test]
fn new_session_keys_go_to_the_builder() {
    for key in [plain(BareKey::Down), plain(BareKey::Up), plain(BareKey::Backspace), ch('a')] {
        let mut state = state_on(ActiveScreen::New, false);
        let out = press(&mut state, key);
        assert_eq!(out, Outcome { should_render: true, actions: vec![Action::NewSessionKey(key)] });
    }
}

#[test]
fn new_session_chords_move_the_selection() {
    for (c, arrow) in
        [('n', BareKey::Down), ('j', BareKey::Down), ('p', BareKey::Up), ('k', BareKey::Up)]
    {
        let mut state = state_on(ActiveScreen::New, false);
        let out = press(&mut state, ctrl(c));
        assert_eq!(
            out,
            Outcome { should_render: true, actions: vec![Action::NewSessionKey(plain(arrow))] }
        );
    }
}

#[test]
fn new_session_ignores_other_keys() {
    let mut state = state_on(ActiveScreen::New, false);
    for key in [plain(BareKey::Delete), plain(BareKey::Left), ctrl('d'), alt('d'), plain(BareKey::F(1))] {
        let out = press(&mut state, key);
        assert_eq!(out, Outcome { should_render: false, actions: vec![] });
    }
}

#[test]
fn new_session_enter_commits_a_valid_name() {
    for key in [plain(BareKey::Enter), ch('\n')] {
        let mut state = state_on(ActiveScreen::New, false);
        let mut catalog = Catalog::empty();
        catalog.new_session_name = "work".to_string();
        let out = state.handle_key(&key, &catalog);
        assert_eq!(out, Outcome { should_render: true, actions: vec![Action::CommitNewSession] });
        assert!(state.error.is_none());
    }
}

#[test]
fn new_session_enter_refuses_a_long_name() {
    let mut state = state_on(ActiveScreen::New, false);
    let mut catalog = Catalog::empty();
    catalog.new_session_name = "a".repeat(108);
    let out = state.handle_key(&plain(BareKey::Enter), &catalog);
    assert_eq!(out, Outcome { should_render: true, actions: vec![] });
    assert_eq!(state.error, Some("Session name must be shorter than 108 bytes".to_string()));
}

#[test]
fn new_session_enter_refuses_a_slash() {
    let mut state = state_on(ActiveScreen::New, false);
    let mut catalog = Catalog::empty();
    catalog.new_session_name = "foo/bar".to_string();
    let out = state.handle_key(&plain(BareKey::Enter), &catalog);
    assert_eq!(out, Outcome { should_render: true, actions: vec![] });
    assert_eq!(state.error, Some("Session name cannot contain '/'".to_string()));
}

#[test]
fn new_session_enter_refuses_a_forbidden_session() {
    let mut state = state_on(ActiveScreen::New, false);
    let mut catalog = Catalog::empty();
    catalog.new_session_name = "secret".to_string();
    catalog.forbidden_session_names = names(&["secret"]);
    let out = state.handle_key(&plain(BareKey::Enter), &catalog);
    assert_eq!(out, Outcome { should_render: true, actions: vec![] });
    assert_eq!(
        state.error,
        Some("This session exists and web clients cannot attach to it.".to_string())
    );
}

#[test]
fn ctrl_slash_requests_a_folder_under_a_fresh_identifier() {
    let mut state = state_on(ActiveScreen::New, false);
    let key = ctrl('/');
    let first = press(&mut state, key);
    let second = press(&mut state, key);
    assert!(first.should_render);
    let pending = state.request_ids.pending();
    assert_eq!(pending.len(), 2);
    assert_eq!(pending[0].chars().count(), 36);
    assert_ne!(pending[0], pending[1]);
    assert_eq!(first.actions, vec![Action::RequestFolder { request_id: pending[0].clone() }]);
    assert_eq!(second.actions, vec![Action::RequestFolder { request_id: pending[1].clone() }]);
}

#[test]
fn folder_request_takes_the_given_identifier() {
    let mut state = state_on(ActiveScreen::New, false);
    let out =
        state.handle_key_with_request_id(&ctrl('/'), &Catalog::empty(), "id-1".to_string());
    assert_eq!(
        out,
        Outcome {
            should_render: true,
            actions: vec![Action::RequestFolder { request_id: "id-1".to_string() }],
        }
    );
    assert_eq!(state.request_ids.pending(), vec!["id-1".to_string()]);
    let out = state.handle_key_with_request_id(&ch('a'), &Catalog::empty(), "id-2".to_string());
    assert_eq!(out.actions, vec![Action::NewSessionKey(ch('a'))]);
    assert_eq!(state.request_ids.pending(), vec!["id-1".to_string()]);
}

#[test]
fn ctrl_c_clears_the_folder_on_the_welcome_screen() {
    let mut state = state_on(ActiveScreen::New, true);
    let out = press(&mut state, ctrl('c'));
    assert_eq!(out, Outcome { should_render: true, actions: vec![Action::ClearNewSessionFolder] });
}

#[test]
fn attach_navigation_keys() {
    let table = [
        (plain(BareKey::Right), Action::ExpandResult),
        (plain(BareKey::Left), Action::ShrinkResult),
        (ctrl('.'), Action::ExpandResult),
        (ctrl(','), Action::ShrinkResult),
        (ctrl('l'), Action::ExpandResult),
        (ctrl('h'), Action::ShrinkResult),
        (plain(BareKey::Down), Action::MoveSelectionDown),
        (plain(BareKey::Up), Action::MoveSelectionUp),
        (ctrl('n'), Action::MoveSelectionDown),
        (ctrl('p'), Action::MoveSelectionUp),
        (ctrl('j'), Action::MoveSelectionDown),
    ];
    for (key, action) in table {
        let mut state = searching("ab", 1);
        let out = press(&mut state, key);
        assert_eq!(out, Outcome { should_render: true, actions: vec![action] });
        assert_eq!(search_of(&state), ("ab".to_string(), 1));
    }
}

#[test]
fn ctrl_t_toggles_the_expansion_and_filters_again() {
    let mut state = searching("ab", 1);
    let out = press(&mut state, ctrl('t'));
    assert_eq!(
        out,
        Outcome {
            should_render: true,
            actions: vec![Action::ToggleExpansion, Action::UpdateSearchTerm("ab".to_string())],
        }
    );
}

#[test]
fn typing_inserts_at_the_cursor_and_filters() {
    let mut state = searching("ac", 1);
    let out = press(&mut state, ch('b'));
    assert_eq!(
        out,
        Outcome { should_render: true, actions: vec![Action::UpdateSearchTerm("abc".to_string())] }
    );
    assert_eq!(search_of(&state), ("abc".to_string(), 2));
}

#[test]
fn backspace_deletes_before_the_cursor_and_filters() {
    let mut state = searching("abc", 2);
    let out = press(&mut state, plain(BareKey::Backspace));
    assert_eq!(
        out,
        Outcome { should_render: true, actions: vec![Action::UpdateSearchTerm("ac".to_string())] }
    );
    assert_eq!(search_of(&state), ("ac".to_string(), 1));
}

#[test]
fn backspace_at_the_start_only_redraws() {
    let mut state = searching("abc", 0);
    let out = press(&mut state, plain(BareKey::Backspace));
    assert_eq!(out, Outcome { should_render: true, actions: vec![] });
    assert_eq!(search_of(&state), ("abc".to_string(), 0));
}

#[test]
fn readline_cursor_chords() {
    let mut state = searching("abc", 1);
    assert_eq!(press(&mut state, ctrl('f')), Outcome { should_render: true, actions: vec![] });
    assert_eq!(state.search.cursor(), 2);
    press(&mut state, ctrl('f'));
    assert_eq!(press(&mut state, ctrl('f')), Outcome { should_render: false, actions: vec![] });
    assert_eq!(state.search.cursor(), 3);
    assert_eq!(press(&mut state, ctrl('b')), Outcome { should_render: true, actions: vec![] });
    assert_eq!(state.search.cursor(), 2);
    assert_eq!(press(&mut state, ctrl('a')), Outcome { should_render: true, actions: vec![] });
    assert_eq!(state.search.cursor(), 0);
    assert_eq!(press(&mut state, ctrl('b')), Outcome { should_render: false, actions: vec![] });
    assert_eq!(press(&mut state, ctrl('e')), Outcome { should_render: true, actions: vec![] });
    assert_eq!(state.search.cursor(), 3);
    assert_eq!(state.search.text(), "abc");
}

#[test]
fn ctrl_k_cuts_to_the_end_of_the_search() {
    let mut state = searching("hello world", 5);
    let out = press(&mut state, ctrl('k'));
    assert_eq!(
        out,
        Outcome {
            should_render: true,
            actions: vec![Action::UpdateSearchTerm("hello".to_string())],
        }
    );
    assert_eq!(search_of(&state), ("hello".to_string(), 5));
}

#[test]
fn ctrl_k_moves_up_when_the_search_is_empty() {
    let mut state = attach_state();
    let out = press(&mut state, ctrl('k'));
    assert_eq!(out, Outcome { should_render: true, actions: vec![Action::MoveSelectionUp] });
}

#[test]
fn ctrl_k_moves_up_while_renaming() {
    let mut state = searching("hello", 2);
    state.renaming_session_name = Some(TextField::new());
    let out = press(&mut state, ctrl('k'));
    assert_eq!(out, Outcome { should_render: true, actions: vec![Action::MoveSelectionUp] });
    assert_eq!(search_of(&state), ("hello".to_string(), 2));
}

#[test]
fn ctrl_u_cuts_the_whole_search() {
    let mut state = searching("hello", 2);
    let out = press(&mut state, ctrl('u'));
    assert_eq!(
        out,
        Outcome {
            should_render: true,
            actions: vec![Action::UpdateSearchTerm(String::new()), Action::ResetSelectedIndex],
        }
    );
    assert_eq!(search_of(&state), (String::new(), 0));
    let out = press(&mut state, ctrl('u'));
    assert_eq!(out, Outcome { should_render: false, actions: vec![] });
}

#[test]
fn alt_shift_x_cuts_the_whole_search() {
    let mut state = searching("hello", 2);
    let out = press(&mut state, alt('x').with_shift_modifier());
    assert_eq!(
        out,
        Outcome {
            should_render: true,
            actions: vec![Action::UpdateSearchTerm(String::new()), Action::ResetSelectedIndex],
        }
    );
    assert_eq!(search_of(&state), (String::new(), 0));
}

#[test]
fn alt_x_deletes_forward() {
    let mut state = searching("hello", 1);
    let out = press(&mut state, alt('x'));
    assert_eq!(
        out,
        Outcome { should_render: true, actions: vec![Action::UpdateSearchTerm("hllo".to_string())] }
    );
    assert_eq!(search_of(&state), ("hllo".to_string(), 1));
    let mut end = searching("hello", 5);
    assert_eq!(press(&mut end, alt('x')), Outcome { should_render: false, actions: vec![] });
}

#[test]
fn ctrl_w_deletes_the_word_before_the_cursor() {
    let mut state = searching("hello  world", 12);
    let out = press(&mut state, ctrl('w'));
    assert_eq!(
        out,
        Outcome {
            should_render: true,
            actions: vec![Action::UpdateSearchTerm("hello  ".to_string())],
        }
    );
    assert_eq!(search_of(&state), ("hello  ".to_string(), 7));
    let mut start = searching("hello", 0);
    assert_eq!(press(&mut start, ctrl('w')), Outcome { should_render: false, actions: vec![] });
}

#[test]
fn alt_d_deletes_the_word_after_the_cursor() {
    let mut state = searching("hello  world", 5);
    let out = press(&mut state, alt('d'));
    assert_eq!(
        out,
        Outcome { should_render: true, actions: vec![Action::UpdateSearchTerm("hello".to_string())] }
    );
    assert_eq!(search_of(&state), ("hello".to_string(), 5));
    assert_eq!(press(&mut state, alt('d')), Outcome { should_render: false, actions: vec![] });
}

#[test]
fn readline_chords_rest_while_renaming() {
    for key in [ctrl('f'), ctrl('b'), ctrl('a'), ctrl('e'), ctrl('u'), ctrl('w'), alt('d'), alt('x')] {
        let mut state = searching("hello world", 5);
        state.renaming_session_name = Some(TextField::from_text("x"));
        let out = press(&mut state, key);
        assert_eq!(out, Outcome { should_render: false, actions: vec![] });
        assert_eq!(search_of(&state), ("hello world".to_string(), 5));
        assert_eq!(rename_of(&state), Some("x".to_string()));
    }
}

#[test]
fn ctrl_c_clears_the_search_on_the_welcome_screen() {
    let mut state = state_on(ActiveScreen::Attach, true);
    state.search = TextField::from_text("abc");
    let out = press(&mut state, ctrl('c'));
    assert_eq!(
        out,
        Outcome {
            should_render: true,
            actions: vec![Action::UpdateSearchTerm(String::new()), Action::ResetSelectedIndex],
        }
    );
    assert_eq!(search_of(&state), (String::new(), 0));
    let out = press(&mut state, ctrl('c'));
    assert_eq!(out, Outcome { should_render: true, actions: vec![] });
}

#[test]
fn ctrl_x_disconnects_the_other_clients() {
    let mut state = attach_state();
    let out = press(&mut state, ctrl('x'));
    assert_eq!(out, Outcome { should_render: false, actions: vec![Action::DisconnectOtherClients] });
}

#[test]
fn ctrl_takes_precedence_over_alt() {
    let mut state = searching("hello", 1);
    let out = press(&mut state, ctrl('x').with_alt_modifier());
    assert_eq!(out.actions, vec![Action::DisconnectOtherClients]);
    assert_eq!(search_of(&state), ("hello".to_string(), 1));
}

#[test]
fn delete_kills_the_selected_session() {
    let mut state = searching("wo", 2);
    let catalog = selected("work", Some(1), None, false);
    let out = state.handle_key(&plain(BareKey::Delete), &catalog);
    assert_eq!(
        out,
        Outcome {
            should_render: true,
            actions: vec![
                Action::KillSessions(names(&["work"])),
                Action::ResetSelectedIndex,
                Action::UpdateSearchTerm(String::new()),
            ],
        }
    );
    assert_eq!(search_of(&state), (String::new(), 0));
    assert!(state.error.is_none());
}

#[test]
fn delete_without_a_selection_raises_an_error() {
    let mut state = searching("wo", 2);
    let out = press(&mut state, plain(BareKey::Delete));
    assert_eq!(out, Outcome { should_render: true, actions: vec![] });
    assert_eq!(state.error, Some("Must select session before killing it.".to_string()));
    assert_eq!(search_of(&state), ("wo".to_string(), 2));
}

#[test]
fn ctrl_d_without_other_sessions_raises_an_error() {
    let mut state = attach_state();
    let out = press(&mut state, ctrl('d'));
    assert_eq!(out, Outcome { should_render: true, actions: vec![] });
    assert_eq!(
        state.error,
        Some("No other sessions to kill. Quit to kill the current one.".to_string())
    );
    assert!(!state.show_kill_all_sessions_warning);
}

#[test]
fn ctrl_d_with_other_sessions_opens_the_question() {
    let mut state = searching("ab", 1);
    let mut catalog = Catalog::empty();
    catalog.other_session_names = names(&["one", "two"]);
    let out = state.handle_key(&ctrl('d'), &catalog);
    assert_eq!(out, Outcome { should_render: true, actions: vec![] });
    assert!(state.show_kill_all_sessions_warning);
    assert!(state.error.is_none());
    assert_eq!(search_of(&state), ("ab".to_string(), 1));
    for key in [ch('x'), plain(BareKey::Down), plain(BareKey::Enter), plain(BareKey::Tab), ctrl('d')] {
        let out = state.handle_key(&key, &catalog);
        assert_eq!(out, Outcome { should_render: false, actions: vec![] });
        assert!(state.show_kill_all_sessions_warning);
        assert_eq!(state.active_screen, ActiveScreen::Attach);
        assert_eq!(search_of(&state), ("ab".to_string(), 1));
    }
}

#[test]
fn y_kills_all_other_sessions() {
    let mut state = searching("ab", 1);
    state.show_kill_all_sessions_warning = true;
    let mut catalog = Catalog::empty();
    catalog.other_session_names = names(&["one", "two"]);
    let out = state.handle_key(&ch('y'), &catalog);
    assert_eq!(
        out,
        Outcome {
            should_render: true,
            actions: vec![
                Action::KillSessions(names(&["one", "two"])),
                Action::ResetSelectedIndex,
                Action::UpdateSearchTerm(String::new()),
            ],
        }
    );
    assert!(!state.show_kill_all_sessions_warning);
    assert_eq!(search_of(&state), (String::new(), 0));
}

#[test]
fn n_closes_the_question() {
    let mut state = searching("ab", 1);
    state.show_kill_all_sessions_warning = true;
    let mut catalog = Catalog::empty();
    catalog.other_session_names = names(&["one"]);
    let out = state.handle_key(&ch('n'), &catalog);
    assert_eq!(out, Outcome { should_render: true, actions: vec![] });
    assert!(!state.show_kill_all_sessions_warning);
    assert_eq!(search_of(&state), ("ab".to_string(), 1));
}

#[test]
fn ctrl_c_in_the_question() {
    let mut overlay = attach_state();
    overlay.show_kill_all_sessions_warning = true;
    let out = press(&mut overlay, ctrl('c'));
    assert_eq!(out, Outcome { should_render: false, actions: vec![Action::HideSelf] });
    assert!(overlay.show_kill_all_sessions_warning);
    let mut welcome = state_on(ActiveScreen::Attach, true);
    welcome.show_kill_all_sessions_warning = true;
    let out = press(&mut welcome, ctrl('c'));
    assert_eq!(out, Outcome { should_render: true, actions: vec![] });
    assert!(!welcome.show_kill_all_sessions_warning);
}

#[test]
fn rename_field_takes_characters_and_backspace() {
    let mut state = searching("ab", 1);
    let out = press(&mut state, ctrl('r'));
    assert_eq!(out, Outcome { should_render: true, actions: vec![] });
    assert_eq!(rename_of(&state), Some(String::new()));
    assert_eq!(press(&mut state, ch('x')), Outcome { should_render: true, actions: vec![] });
    press(&mut state, ch('y'));
    assert_eq!(rename_of(&state), Some("xy".to_string()));
    assert_eq!(search_of(&state), ("ab".to_string(), 1));
    let out = press(&mut state, plain(BareKey::Backspace));
    assert_eq!(out, Outcome { should_render: true, actions: vec![] });
    assert_eq!(rename_of(&state), Some("x".to_string()));
    press(&mut state, plain(BareKey::Backspace));
    assert_eq!(rename_of(&state), Some(String::new()));
    let out = press(&mut state, plain(BareKey::Backspace));
    assert_eq!(out, Outcome { should_render: true, actions: vec![] });
    assert_eq!(rename_of(&state), None);
    assert_eq!(search_of(&state), ("ab".to_string(), 1));
}

#[test]
fn ctrl_r_starts_with_an_empty_field() {
    let mut state = attach_state();
    state.renaming_session_name = Some(TextField::from_text("old"));
    press(&mut state, ctrl('r'));
    assert_eq!(rename_of(&state), Some(String::new()));
}

#[test]
fn rename_is_carried_out() {
    let mut state = attach_state();
    state.session_name = Some("mine".to_string());
    state.renaming_session_name = Some(TextField::from_text("fresh"));
    let mut catalog = Catalog::empty();
    catalog.session_names = names(&["mine", "other"]);
    catalog.resurrectable_session_names = names(&["old"]);
    let out = state.handle_key(&plain(BareKey::Enter), &catalog);
    assert_eq!(
        out,
        Outcome {
            should_render: true,
            actions: vec![
                Action::UpdateSessionName {
                    old_name: "mine".to_string(),
                    new_name: "fresh".to_string(),
                },
                Action::RenameSession("fresh".to_string()),
            ],
        }
    );
    assert_eq!(state.session_name, Some("fresh".to_string()));
    assert_eq!(rename_of(&state), None);
    assert!(state.error.is_none());
}

#[test]
fn rename_without_a_known_current_name() {
    let mut state = attach_state();
    state.renaming_session_name = Some(TextField::from_text("fresh"));
    let out = state.handle_key(&ch('\n'), &Catalog::empty());
    assert_eq!(out.actions, vec![Action::RenameSession("fresh".to_string())]);
    assert_eq!(state.session_name, Some("fresh".to_string()));
}

#[test]
fn rename_errors() {
    let cases = [
        ("", "New name must not be empty."),
        ("other", "A session by this name already exists."),
        ("old", "A resurrectable session by this name already exists."),
        ("a/b", "Session names cannot contain '/'"),
    ];
    for (typed, message) in cases {
        let mut state = searching("ab", 1);
        state.session_name = Some("mine".to_string());
        state.renaming_session_name = Some(TextField::from_text(typed));
        let mut catalog = Catalog::empty();
        catalog.session_names = names(&["mine", "other"]);
        catalog.resurrectable_session_names = names(&["old"]);
        let out = state.handle_key(&plain(BareKey::Enter), &catalog);
        assert_eq!(out, Outcome { should_render: true, actions: vec![] });
        assert_eq!(state.error, Some(message.to_string()));
        assert_eq!(state.session_name, Some("mine".to_string()));
        assert_eq!(rename_of(&state), Some(typed.to_string()));
        assert_eq!(search_of(&state), ("ab".to_string(), 1));
        assert_eq!(state.active_screen, ActiveScreen::Attach);
    }
}

#[test]
fn refused_rename_can_be_mended() {
    let mut state = attach_state();
    state.session_name = Some("mine".to_string());
    state.renaming_session_name = Some(TextField::from_text("other"));
    let mut catalog = Catalog::empty();
    catalog.session_names = names(&["mine", "other"]);
    let out = state.handle_key(&plain(BareKey::Enter), &catalog);
    assert_eq!(out, Outcome { should_render: true, actions: vec![] });
    assert_eq!(state.error, Some("A session by this name already exists.".to_string()));
    assert_eq!(rename_of(&state), Some("other".to_string()));
    let out = state.handle_key(&ch('2'), &catalog);
    assert_eq!(out, Outcome { should_render: true, actions: vec![] });
    assert!(state.error.is_none());
    assert_eq!(rename_of(&state), Some("other".to_string()));
    state.handle_key(&ch('2'), &catalog);
    assert_eq!(rename_of(&state), Some("other2".to_string()));
    let out = state.handle_key(&plain(BareKey::Enter), &catalog);
    assert_eq!(
        out.actions,
        vec![
            Action::UpdateSessionName {
                old_name: "mine".to_string(),
                new_name: "other2".to_string(),
            },
            Action::RenameSession("other2".to_string()),
        ]
    );
    assert_eq!(rename_of(&state), None);
    assert_eq!(state.session_name, Some("other2".to_string()));
}

#[test]
fn handle_selection_keeps_a_refused_name() {
    let mut state = attach_state();
    state.renaming_session_name = Some(TextField::from_text("dup"));
    let mut catalog = Catalog::empty();
    catalog.session_names = names(&["dup"]);
    assert_eq!(state.handle_selection(&catalog), vec![]);
    assert_eq!(state.error, Some("A session by this name already exists.".to_string()));
    assert_eq!(rename_of(&state), Some("dup".to_string()));
}

#[test]
fn rename_to_the_current_name_is_a_silent_no_op() {
    let mut state = attach_state();
    state.session_name = Some("mine".to_string());
    state.renaming_session_name = Some(TextField::from_text("mine"));
    let mut catalog = Catalog::empty();
    catalog.session_names = names(&["mine"]);
    let out = state.handle_key(&plain(BareKey::Enter), &catalog);
    assert_eq!(out, Outcome { should_render: true, actions: vec![] });
    assert!(state.error.is_none());
    assert_eq!(rename_of(&state), None);
}

#[test]
fn attach_to_another_session_switches() {
    let mut state = searching("wo", 2);
    let catalog = selected("work", Some(2), Some((7, false)), false);
    let out = state.handle_key(&plain(BareKey::Enter), &catalog);
    assert_eq!(
        out,
        Outcome {
            should_render: true,
            actions: vec![
                Action::SwitchSession {
                    name: "work".to_string(),
                    tab_position: Some(2),
                    pane_id: Some((7, false)),
                },
                Action::ResetSelectedIndex,
                Action::UpdateSearchTerm(String::new()),
                Action::HideSelf,
            ],
        }
    );
    assert_eq!(search_of(&state), (String::new(), 0));
}

#[test]
fn attach_in_the_current_session_prefers_the_pane() {
    let mut state = attach_state();
    let out = state.handle_key(&plain(BareKey::Enter), &selected("mine", Some(2), Some((7, true)), true));
    assert_eq!(out.actions[0], Action::FocusPluginPane(7));
    assert_eq!(out.actions.len(), 4);
    let mut state = attach_state();
    let out = state.handle_key(&plain(BareKey::Enter), &selected("mine", Some(2), Some((7, false)), true));
    assert_eq!(out.actions[0], Action::FocusTerminalPane(7));
    let mut state = attach_state();
    let out = state.handle_key(&plain(BareKey::Enter), &selected("mine", Some(2), None, true));
    assert_eq!(
        out.actions,
        vec![
            Action::GoToTab(2),
            Action::ResetSelectedIndex,
            Action::UpdateSearchTerm(String::new()),
            Action::HideSelf,
        ]
    );
}

#[test]
fn attach_to_the_current_session_itself_raises_an_error() {
    let mut state = searching("mi", 2);
    let out = state.handle_key(&plain(BareKey::Enter), &selected("mine", None, None, true));
    assert_eq!(
        out,
        Outcome {
            should_render: true,
            actions: vec![
                Action::ResetSelectedIndex,
                Action::UpdateSearchTerm(String::new()),
                Action::HideSelf,
            ],
        }
    );
    assert_eq!(state.error, Some("Already attached...".to_string()));
    assert_eq!(search_of(&state), (String::new(), 0));
}

#[test]
fn attach_with_nothing_selected_tidies_up() {
    let mut state = searching("zz", 2);
    let out = press(&mut state, plain(BareKey::Enter));
    assert_eq!(
        out.actions,
        vec![Action::ResetSelectedIndex, Action::UpdateSearchTerm(String::new()), Action::HideSelf]
    );
    assert!(state.error.is_none());
}

#[test]
fn attach_on_the_welcome_screen_does_not_hide() {
    let mut state = state_on(ActiveScreen::Attach, true);
    let out = state.handle_key(&plain(BareKey::Enter), &selected("work", None, None, false));
    assert_eq!(
        out.actions,
        vec![
            Action::SwitchSession { name: "work".to_string(), tab_position: None, pane_id: None },
            Action::ResetSelectedIndex,
            Action::UpdateSearchTerm(String::new()),
        ]
    );
}

#[test]
fn handle_selection_returns_the_requests() {
    let mut state = state_on(ActiveScreen::Resurrect, false);
    let mut catalog = Catalog::empty();
    catalog.selected_resurrectable = Some("old".to_string());
    assert_eq!(state.handle_selection(&catalog), vec![Action::ResurrectSession("old".to_string())]);
    assert_eq!(state.handle_selection(&Catalog::empty()), vec![]);
}

#[test]
fn resurrect_keys() {
    let table = [
        (plain(BareKey::Down), Action::ResurrectMoveDown),
        (plain(BareKey::Up), Action::ResurrectMoveUp),
        (ctrl('n'), Action::ResurrectMoveDown),
        (ctrl('j'), Action::ResurrectMoveDown),
        (ctrl('p'), Action::ResurrectMoveUp),
        (ctrl('k'), Action::ResurrectMoveUp),
        (ch('a'), Action::ResurrectCharacter('a')),
        (plain(BareKey::Backspace), Action::ResurrectBackspace),
        (plain(BareKey::Delete), Action::ResurrectDeleteSelected),
        (ctrl('d'), Action::ResurrectDeleteAll),
    ];
    for (key, action) in table {
        let mut state = state_on(ActiveScreen::Resurrect, false);
        let out = press(&mut state, key);
        assert_eq!(out, Outcome { should_render: true, actions: vec![action] });
    }
}

#[test]
fn resurrect_enter_switches_to_the_selected_session() {
    for key in [plain(BareKey::Enter), ch('\n')] {
        let mut state = state_on(ActiveScreen::Resurrect, false);
        let mut catalog = Catalog::empty();
        catalog.selected_resurrectable = Some("old".to_string());
        let out = state.handle_key(&key, &catalog);
        assert_eq!(
            out,
            Outcome {
                should_render: true,
                actions: vec![Action::ResurrectSession("old".to_string())],
            }
        );
    }
    let mut state = state_on(ActiveScreen::Resurrect, false);
    let out = press(&mut state, plain(BareKey::Enter));
    assert_eq!(out, Outcome { should_render: true, actions: vec![] });
}

#[test]
fn welcome_screen_never_hides() {
    let keys = [
        plain(BareKey::Esc),
        ctrl('c'),
        plain(BareKey::Enter),
        ch('a'),
        plain(BareKey::Tab),
        ctrl('k'),
    ];
    for screen in [ActiveScreen::New, ActiveScreen::Attach, ActiveScreen::Resurrect] {
        for key in keys {
            let mut state = state_on(screen, true);
            let out = state.handle_key(&key, &selected("work", None, None, false));
            assert!(!out.actions.contains(&Action::HideSelf));
        }
    }
}

#[test]
fn lookup_is_a_table_of_the_mode_and_the_key() {
    let attach =
        Mode { screen: ActiveScreen::Attach, confirming: false, renaming: false, standalone: false };
    assert_eq!(lookup(&attach, &ctrl('k')), Command::KillToEndOrSelectionUp);
    assert_eq!(lookup(&attach, &ch('k')), Command::TypeChar('k'));
    assert_eq!(lookup(&attach, &ctrl('q')), Command::Ignore);
    assert_eq!(lookup(&attach, &plain(BareKey::Esc)), Command::Hide);
    assert!(!attach.is_in_dialog());
    let confirming = Mode { confirming: true, ..attach };
    assert!(confirming.is_in_dialog());
    assert_eq!(lookup(&confirming, &ch('y')), Command::ConfirmKillAll);
    assert_eq!(lookup(&confirming, &ch('y').with_shift_modifier()), Command::Ignore);
    assert_eq!(lookup(&confirming, &plain(BareKey::Esc)), Command::CancelKillAll);
    let renaming = Mode { renaming: true, ..attach };
    assert_eq!(lookup(&renaming, &plain(BareKey::Esc)), Command::CancelRename);
    let new = Mode { screen: ActiveScreen::New, ..renaming };
    assert!(!new.is_in_dialog());
    assert_eq!(lookup(&new, &plain(BareKey::Esc)), Command::Hide);
    assert_eq!(lookup(&new, &ctrl('/')), Command::RequestFolder);
}

#[test]
fn key_modifiers() {
    let key = ch('a').with_ctrl_modifier().with_shift_modifier();
    assert!(!key.has_no_modifiers());
    assert!(key.has_modifier(KeyModifier::Ctrl));
    assert!(!key.has_modifier(KeyModifier::Alt));
    assert!(key.has_modifiers(&[KeyModifier::Ctrl]));
    assert!(key.has_modifiers(&[KeyModifier::Ctrl, KeyModifier::Shift]));
    assert!(!key.has_modifiers(&[KeyModifier::Ctrl, KeyModifier::Alt]));
    assert!(key.has_modifiers(&[]));
    assert!(ch('a').has_no_modifiers());
    assert!(ch('a').with_super_modifier().has_modifier(KeyModifier::Super));
    assert!(ch('a').with_alt_modifier().has_modifier(KeyModifier::Alt));
}

#[test]
fn screen_handlers_go_by_their_own_tables() {
    let mut state = attach_state();
    let out = state.handle_new_session_key(&ch('a'), &Catalog::empty(), "id".to_string());
    assert_eq!(out, Outcome { should_render: true, actions: vec![Action::NewSessionKey(ch('a'))] });
    let out = state.handle_resurrect_session_key(&ch('a'), &Catalog::empty());
    assert_eq!(out, Outcome { should_render: true, actions: vec![Action::ResurrectCharacter('a')] });
    let out = state.handle_attach_to_session(&ch('a'), &Catalog::empty());
    assert_eq!(
        out,
        Outcome { should_render: true, actions: vec![Action::UpdateSearchTerm("a".to_string())] }
    );
    assert_eq!(state.active_screen, ActiveScreen::Attach);
    let out = state.handle_new_session_key(&ctrl('/'), &Catalog::empty(), "id".to_string());
    assert_eq!(out.actions, vec![Action::RequestFolder { request_id: "id".to_string() }]);
    assert_eq!(state.request_ids.pending(), vec!["id".to_string()]);
}

#[test]
fn screen_handlers_do_not_look_at_the_error() {
    let mut state = attach_state();
    state.show_error("broken");
    let out = state.handle_attach_to_session(&ch('a'), &Catalog::empty());
    assert_eq!(out.actions, vec![Action::UpdateSearchTerm("a".to_string())]);
    assert_eq!(state.error, Some("broken".to_string()));
}

#[test]
fn commands_are_applied() {
    let mut state = searching("abc", 3);
    let out = state.apply(Command::CursorLeft, &Catalog::empty(), String::new());
    assert_eq!(out, Outcome { should_render: true, actions: vec![] });
    assert_eq!(state.search.cursor(), 2);
    let out = state.apply(Command::Ignore, &Catalog::empty(), String::new());
    assert_eq!(out, Outcome { should_render: false, actions: vec![] });
    let out = state.apply(Command::ClearSearch, &Catalog::empty(), String::new());
    assert_eq!(
        out.actions,
        vec![Action::UpdateSearchTerm(String::new()), Action::ResetSelectedIndex]
    );
    let out = state.apply(Command::ClearSearch, &Catalog::empty(), String::new());
    assert_eq!(
        out,
        Outcome {
            should_render: true,
            actions: vec![Action::ResetSelectedIndex, Action::HideSelf],
        }
    );
}

#[test]
fn mode_of_a_state() {
    let mut state = state_on(ActiveScreen::Attach, true);
    state.renaming_session_name = Some(TextField::new());
    assert_eq!(
        state.mode(),
        Mode { screen: ActiveScreen::Attach, confirming: false, renaming: true, standalone: true }
    );
}

#[test]
fn a_copy_of_a_field_is_equal_to_it() {
    let field = TextField::from_parts("abc".chars().collect(), 1).unwrap();
    let copy = field.clone();
    assert_eq!(copy.text(), "abc");
    assert_eq!(copy.cursor(), 1);
}
