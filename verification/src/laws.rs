//! What holds of every step of the dispatcher, proved of `StateView::step`
//! and of `StateView::pipe`.

use crate::actions::{no_actions, ActionView};
use crate::catalog::CatalogView;
use crate::command::{command_for, Command};
use crate::events::folder_answer_name;
use crate::key::{BareKey, KeyWithModifier};
use crate::requests::lemma_answer_resolves_only_its_request;
use crate::screen::ActiveScreen;
use crate::state::{no_other_sessions_text, tidy_up, StateView, Step};
use crate::text_field::{lemma_operations_keep_cursor_in_bounds, TextFieldView};
use crate::validation::{new_name_verdict, rename_verdict};
use vstd::prelude::*;

verus! {

/// While an error is shown, any key takes the error away and does nothing
/// else: the rest of the state stays, nothing is asked of the world around,
/// and the screen is drawn again.
pub proof fn lemma_error_consumes_the_key(
    state: StateView,
    key: KeyWithModifier,
    catalog: CatalogView,
    request_id: Seq<char>,
)
    requires
        state.error is Some,
    ensures
        state.step(key, catalog, request_id) == (Step {
            state: StateView { error: None, ..state },
            actions: no_actions(),
            redraw: true,
        }),
{
}

/// Outside the standalone welcome screen and with no dialog open, a plain
/// Escape hides the overlay on every screen: the state stays as it is, the
/// one request is to hide, and the screen is not drawn again.
pub proof fn lemma_escape_hides_the_overlay(
    state: StateView,
    catalog: CatalogView,
    request_id: Seq<char>,
)
    requires
        state.error is None,
        !state.is_welcome_screen,
        !state.mode().in_dialog(),
    ensures
        state.step(KeyWithModifier::plain(BareKey::Esc), catalog, request_id) == (Step {
            state,
            actions: no_actions().push(ActionView::HideSelf),
            redraw: false,
        }),
{
}

/// Outside the standalone welcome screen, Ctrl with `c` hides the overlay
/// on every screen and in every dialog, and leaves the state as it is.
pub proof fn lemma_ctrl_c_hides_the_overlay(
    state: StateView,
    key: KeyWithModifier,
    catalog: CatalogView,
    request_id: Seq<char>,
)
    requires
        state.error is None,
        !state.is_welcome_screen,
        key.is_ctrl('c'),
    ensures
        state.step(key, catalog, request_id) == (Step {
            state,
            actions: no_actions().push(ActionView::HideSelf),
            redraw: false,
        }),
{
}

/// On the standalone welcome screen a plain Escape hides nothing and
/// changes nothing. On the screen for new sessions the key goes to the
/// builder, as any key of its field does; on the resurrect screen it means
/// nothing at all.
pub proof fn lemma_escape_on_the_welcome_screen(
    state: StateView,
    catalog: CatalogView,
    request_id: Seq<char>,
)
    requires
        state.error is None,
        state.is_welcome_screen,
        state.active_screen != ActiveScreen::Attach,
    ensures
        state.step(KeyWithModifier::plain(BareKey::Esc), catalog, request_id).state == state,
        state.active_screen == ActiveScreen::New ==> state.step(
            KeyWithModifier::plain(BareKey::Esc),
            catalog,
            request_id,
        ) == state.ask(ActionView::NewSessionKey(KeyWithModifier::plain(BareKey::Esc))),
        state.active_screen == ActiveScreen::Resurrect ==> state.step(
            KeyWithModifier::plain(BareKey::Esc),
            catalog,
            request_id,
        ) == state.stay(),
{
}

/// In a dialog a plain Escape closes the dialog and nothing else, whatever
/// the presentation: the question if it is open, the rename field if not.
/// The overlay is not hidden.
pub proof fn lemma_escape_closes_the_dialog(
    state: StateView,
    catalog: CatalogView,
    request_id: Seq<char>,
)
    requires
        state.error is None,
        state.mode().in_dialog(),
    ensures
        state.step(KeyWithModifier::plain(BareKey::Esc), catalog, request_id).actions
            == no_actions(),
        state.step(KeyWithModifier::plain(BareKey::Esc), catalog, request_id).redraw,
        state.show_kill_all_sessions_warning ==> state.step(
            KeyWithModifier::plain(BareKey::Esc),
            catalog,
            request_id,
        ).state == (StateView { show_kill_all_sessions_warning: false, ..state }),
        !state.show_kill_all_sessions_warning ==> state.step(
            KeyWithModifier::plain(BareKey::Esc),
            catalog,
            request_id,
        ).state == (StateView { renaming: None, ..state }),
{
}

/// On the standalone welcome screen no key ever asks to hide the overlay.
pub proof fn lemma_welcome_screen_is_never_hidden(
    state: StateView,
    key: KeyWithModifier,
    catalog: CatalogView,
    request_id: Seq<char>,
)
    requires
        state.is_welcome_screen,
    ensures
        !state.step(key, catalog, request_id).actions.contains(ActionView::HideSelf),
{
    let step = state.step(key, catalog, request_id);
    if step.actions.contains(ActionView::HideSelf) {
        let i = choose|i: int| 0 <= i < step.actions.len() && step.actions[i] == ActionView::HideSelf;
        assert(step.actions[i] == ActionView::HideSelf);
        assert(false);
    }
}

/// Ctrl with `d` on the attach screen, with no question open. If there is
/// no other session, the error is shown and the question stays closed. If
/// there is one, the question is opened. Either way nothing is asked of the
/// world around, and the rest of the state stays as it is.
pub proof fn lemma_kill_all_asks_first(
    state: StateView,
    key: KeyWithModifier,
    catalog: CatalogView,
    request_id: Seq<char>,
)
    requires
        state.error is None,
        state.active_screen == ActiveScreen::Attach,
        !state.show_kill_all_sessions_warning,
        key.is_ctrl('d'),
    ensures
        state.step(key, catalog, request_id).actions == no_actions(),
        state.step(key, catalog, request_id).redraw,
        catalog.other_session_names.len() == 0 ==> state.step(key, catalog, request_id).state == (
        StateView { error: Some(no_other_sessions_text()), ..state }),
        catalog.other_session_names.len() > 0 ==> state.step(key, catalog, request_id).state == (
        StateView { show_kill_all_sessions_warning: true, ..state }),
{
}

/// While the question is open, a key that is neither an answer nor one of
/// the two keys that close or hide does nothing at all: no session is
/// killed before the answer.
pub proof fn lemma_question_waits_for_the_answer(
    state: StateView,
    key: KeyWithModifier,
    catalog: CatalogView,
    request_id: Seq<char>,
)
    requires
        state.error is None,
        state.active_screen == ActiveScreen::Attach,
        state.show_kill_all_sessions_warning,
        !key.is_plain(BareKey::Char('y')),
        !key.is_plain(BareKey::Char('n')),
        !key.is_plain(BareKey::Esc),
        !key.is_ctrl('c'),
    ensures
        state.step(key, catalog, request_id) == state.stay(),
{
}

/// The answers to the question. On `y` all other sessions are killed, the
/// selection of the session list goes back to its initial place, the search
/// is cleared and the question is closed. On `n` the question is closed and
/// nothing else happens.
pub proof fn lemma_answers_to_the_question(
    state: StateView,
    catalog: CatalogView,
    request_id: Seq<char>,
)
    requires
        state.error is None,
        state.active_screen == ActiveScreen::Attach,
        state.show_kill_all_sessions_warning,
    ensures
        state.step(KeyWithModifier::plain(BareKey::Char('y')), catalog, request_id) == (Step {
            state: StateView {
                show_kill_all_sessions_warning: false,
                search: TextFieldView::empty(),
                ..state
            },
            actions: no_actions().push(
                ActionView::KillSessions(catalog.other_session_names),
            ).push(ActionView::ResetSelectedIndex).push(ActionView::UpdateSearchTerm(Seq::empty())),
            redraw: true,
        }),
        state.step(KeyWithModifier::plain(BareKey::Char('n')), catalog, request_id) == (Step {
            state: StateView { show_kill_all_sessions_warning: false, ..state },
            actions: no_actions(),
            redraw: true,
        }),
{
}

/// Tab and Shift with Tab change the screen and nothing else, on every
/// screen and with the rename field open too: the search field, the rename
/// field, the requests and the names stay as they are.
pub proof fn lemma_toggle_keeps_the_fields(
    state: StateView,
    key: KeyWithModifier,
    catalog: CatalogView,
    request_id: Seq<char>,
)
    requires
        state.error is None,
        !(state.active_screen == ActiveScreen::Attach && state.show_kill_all_sessions_warning),
        key.bare_key == BareKey::Tab,
        key.no_modifiers() || key.shift,
    ensures
        state.step(key, catalog, request_id) == (Step {
            state: StateView {
                active_screen: if key.no_modifiers() {
                    state.active_screen.next()
                } else {
                    state.active_screen.prev()
                },
                ..state
            },
            actions: no_actions(),
            redraw: true,
        }),
{
}

/// Ctrl with `k` on the attach screen cuts the search to the end of the
/// line where there is a search to cut, and moves the selection up where
/// there is none or the rename field is open.
pub proof fn lemma_ctrl_k_prefers_the_text(
    state: StateView,
    key: KeyWithModifier,
    catalog: CatalogView,
    request_id: Seq<char>,
)
    requires
        state.error is None,
        state.active_screen == ActiveScreen::Attach,
        !state.show_kill_all_sessions_warning,
        key.is_ctrl('k'),
    ensures
        state.renaming is None && state.search.content.len() > 0 ==> state.step(
            key,
            catalog,
            request_id,
        ) == state.edit_search(state.search.kill_to_end()),
        state.renaming is Some || state.search.content.len() == 0 ==> state.step(
            key,
            catalog,
            request_id,
        ) == state.ask(ActionView::MoveSelectionUp),
{
}

/// A step changes neither the presentation nor the kind of client, and it
/// changes the screen only where the key is Tab.
pub proof fn lemma_step_keeps_the_setting(
    state: StateView,
    key: KeyWithModifier,
    catalog: CatalogView,
    request_id: Seq<char>,
)
    ensures
        state.step(key, catalog, request_id).state.is_welcome_screen == state.is_welcome_screen,
        state.step(key, catalog, request_id).state.is_web_client == state.is_web_client,
        key.bare_key != BareKey::Tab ==> state.step(key, catalog, request_id).state.active_screen
            == state.active_screen,
{
}

/// Only a key that asks for a folder sends a request, and it records
/// exactly the identifier it is given; every other key leaves the requests
/// that wait as they are.
pub proof fn lemma_only_a_folder_request_is_recorded(
    state: StateView,
    key: KeyWithModifier,
    catalog: CatalogView,
    request_id: Seq<char>,
)
    ensures
        state.asks_for_folder(key) ==> state.step(key, catalog, request_id).state.request_ids
            == state.request_ids.push(request_id),
        !state.asks_for_folder(key) ==> state.step(key, catalog, request_id).state.request_ids
            == state.request_ids,
{
}

/// Editing the search field keeps its cursor inside its text.
proof fn lemma_edit_keeps_cursors_in_bounds(state: StateView, command: Command)
    requires
        state.wf(),
    ensures
        state.edit(command).state.wf(),
        state.cut_search().state.wf(),
        state.clear_search().state.wf(),
{
    lemma_operations_keep_cursor_in_bounds(state.search, 'a');
}

/// Typing and deleting on the attach screen keep the cursors of both
/// fields inside their texts.
proof fn lemma_typing_keeps_cursors_in_bounds(state: StateView, c: char)
    requires
        state.wf(),
    ensures
        state.type_char(c).state.wf(),
        state.backspace().state.wf(),
{
    lemma_operations_keep_cursor_in_bounds(state.search, c);
    if let Some(field) = state.renaming {
        lemma_operations_keep_cursor_in_bounds(field, c);
    }
}

/// Committing a selection and killing sessions keep the cursors of both
/// fields inside their texts.
proof fn lemma_commit_keeps_cursors_in_bounds(state: StateView, catalog: CatalogView)
    requires
        state.wf(),
    ensures
        state.commit(catalog).state.wf(),
        state.kill_selected(catalog).state.wf(),
        state.ask_kill_all(catalog).state.wf(),
        state.confirm_kill_all(catalog).state.wf(),
{
}

/// Whatever command is applied, the cursors of both fields stay inside
/// their texts.
pub proof fn lemma_apply_keeps_cursors_in_bounds(
    state: StateView,
    command: Command,
    catalog: CatalogView,
    request_id: Seq<char>,
)
    requires
        state.wf(),
    ensures
        state.apply(command, catalog, request_id).state.wf(),
{
    lemma_edit_keeps_cursors_in_bounds(state, command);
    lemma_commit_keeps_cursors_in_bounds(state, catalog);
    match command {
        Command::TypeChar(c) => {
            lemma_typing_keeps_cursors_in_bounds(state, c);
        },
        _ => {
            lemma_typing_keeps_cursors_in_bounds(state, 'a');
        },
    }
}

/// A step keeps the cursors of both fields inside their texts.
pub proof fn lemma_step_keeps_cursors_in_bounds(
    state: StateView,
    key: KeyWithModifier,
    catalog: CatalogView,
    request_id: Seq<char>,
)
    requires
        state.wf(),
    ensures
        state.step(key, catalog, request_id).state.wf(),
{
    if state.error is None {
        lemma_apply_keeps_cursors_in_bounds(
            state,
            command_for(state.mode(), key),
            catalog,
            request_id,
        );
    }
}

/// Two requests for a folder are sent under different identifiers, and
/// then the folder picker answers the second. Only the second request is
/// resolved: its folder is taken, it is no longer recorded, and the first
/// request still waits. The rest of the state is as it was.
pub proof fn lemma_answer_resolves_its_request_only(
    state: StateView,
    first: Seq<char>,
    second: Seq<char>,
    folder: Seq<char>,
)
    requires
        first != second,
        !state.request_ids.contains(second),
    ensures
        state.request_folder(first).state.request_folder(second).state.pipe(
            folder_answer_name(),
            Some(folder),
            Some(second),
        ) == (StateView { request_ids: state.request_ids.push(first), ..state }).ask(
            ActionView::SetNewSessionFolder(folder),
        ),
        state.request_ids.push(first).contains(first),
{
    lemma_answer_resolves_only_its_request(state.request_ids, first, second);
}

/// An answer that echoes no identifier of a request that waits is dropped:
/// no folder is taken and every request still waits. So is an answer
/// without a payload or without an identifier, and a message under another
/// name is not even looked at.
pub proof fn lemma_unmatched_answer_is_dropped(
    state: StateView,
    name: Seq<char>,
    payload: Option<Seq<char>>,
    request_id: Option<Seq<char>>,
)
    requires
        name != folder_answer_name() || payload is None || request_id is None
            || !state.request_ids.contains(request_id->0),
    ensures
        state.pipe(name, payload, request_id).state == state,
        state.pipe(name, payload, request_id).actions == no_actions(),
        state.pipe(name, payload, request_id).redraw == (name == folder_answer_name()),
{
}

/// Committing a selection hides the overlay in one case only: an entry of
/// the session list was attached to, outside the standalone welcome
/// screen. A rename, a new session and a resurrection leave the overlay
/// open.
pub proof fn lemma_commit_hides_only_after_attach(state: StateView, catalog: CatalogView)
    ensures
        state.commit(catalog).actions.contains(ActionView::HideSelf) <==> state.active_screen
            == ActiveScreen::Attach && state.renaming is None && !state.is_welcome_screen,
        state.commit(catalog).redraw,
{
    let actions = state.commit(catalog).actions;
    if state.active_screen == ActiveScreen::Attach && state.renaming is None {
        let attached = StateView::attach_actions(catalog);
        let tidy = tidy_up(state.is_welcome_screen);
        assert(actions == attached + tidy);
        if !state.is_welcome_screen {
            assert(tidy[2] == ActionView::HideSelf);
            assert(actions[attached.len() as int + 2] == ActionView::HideSelf);
        } else if actions.contains(ActionView::HideSelf) {
            let i = choose|i: int| 0 <= i < actions.len() && actions[i] == ActionView::HideSelf;
            if i >= attached.len() {
                assert(actions[i] == tidy[i - attached.len()]);
            }
            assert(false);
        }
    } else if actions.contains(ActionView::HideSelf) {
        let i = choose|i: int| 0 <= i < actions.len() && actions[i] == ActionView::HideSelf;
        assert(actions[i] == ActionView::HideSelf);
        assert(false);
    }
}

/// A refusal keeps what the user has put in. Where a name for a new
/// session or for a rename is refused, where a session is to be killed and
/// none is selected, and where all other sessions are to be killed and
/// there is none, the error is shown, nothing is asked of the world around,
/// and the rest of the state stays as it is: the search field, the rename
/// field with what was typed in it, the screen and the requests.
pub proof fn lemma_refusals_keep_the_input(state: StateView, catalog: CatalogView)
    ensures
        catalog.selected_session is None ==> state.kill_selected(catalog)
            == state.show_error(crate::state::must_select_text()).redrawn(),
        catalog.other_session_names.len() == 0 ==> state.ask_kill_all(catalog)
            == state.show_error(no_other_sessions_text()).redrawn(),
        new_name_verdict(catalog.new_session_name, catalog.forbidden_session_names)
            matches Err(error) ==> state.commit_new_session(catalog) == state.show_error(
            error.text(),
        ).redrawn(),
        forall|name: Seq<char>|
            rename_verdict(
                name,
                state.session_name,
                catalog.session_names,
                catalog.resurrectable_session_names,
            ).text() matches Some(text) ==> #[trigger] state.commit_rename(name, catalog)
                == state.show_error(text).redrawn(),
{
}

/// Enter in the rename field with a name that is refused: the error is
/// shown and the rename field stays open with the name in it. No request
/// goes to the host, and the overlay stays.
pub proof fn lemma_refused_rename_keeps_the_field(
    state: StateView,
    catalog: CatalogView,
    request_id: Seq<char>,
)
    requires
        state.error is None,
        state.active_screen == ActiveScreen::Attach,
        !state.show_kill_all_sessions_warning,
        state.renaming is Some,
        rename_verdict(
            state.renaming->0.content,
            state.session_name,
            catalog.session_names,
            catalog.resurrectable_session_names,
        ).text() is Some,
    ensures
        state.step(KeyWithModifier::plain(BareKey::Enter), catalog, request_id).state.renaming
            == state.renaming,
        state.step(KeyWithModifier::plain(BareKey::Enter), catalog, request_id).state.error
            == rename_verdict(
            state.renaming->0.content,
            state.session_name,
            catalog.session_names,
            catalog.resurrectable_session_names,
        ).text(),
        state.step(KeyWithModifier::plain(BareKey::Enter), catalog, request_id).actions
            == no_actions(),
        state.step(KeyWithModifier::plain(BareKey::Enter), catalog, request_id).redraw,
{
}

} // verus!
