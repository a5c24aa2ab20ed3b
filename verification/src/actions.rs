//! What the dispatcher asks of the world around it: operations of the
//! host, and commands to the session catalog, the list of resurrectable
//! sessions and the builder of new sessions.

use crate::chars::{clone_names, views};
use crate::key::KeyWithModifier;
use vstd::prelude::*;

verus! {

/// One request to the host or to a collaborator. The dispatcher only names
/// the request; whoever drives it carries the request out, in the order in
/// which the requests were handed over.
#[derive(Clone, Debug, PartialEq, Eq)]
pub enum Action {
    /// Hide the overlay.
    HideSelf,
    /// Kill the sessions with these names.
    KillSessions(Vec<String>),
    /// Give the current session this name.
    RenameSession(String),
    /// Switch to the running session `name`, to the given tab or pane of it
    /// where one is given.
    SwitchSession { name: String, tab_position: Option<usize>, pane_id: Option<(u32, bool)> },
    /// Resurrect the session of this name and switch to it.
    ResurrectSession(String),
    /// Focus the plugin pane with this identifier in the current session.
    FocusPluginPane(u32),
    /// Focus the terminal pane with this identifier in the current session.
    FocusTerminalPane(u32),
    /// Go to the tab at this position in the current session.
    GoToTab(usize),
    /// Disconnect all other clients from the current session.
    DisconnectOtherClients,
    /// Open the folder picker. The identifier goes to the helper twice: in
    /// its configuration, so that a helper of its own is opened for this
    /// request, and in its arguments, so that the helper can echo it.
    RequestFolder { request_id: String },
    /// Session list: show more detail of the selected result.
    ExpandResult,
    /// Session list: show less detail of the selected result.
    ShrinkResult,
    /// Session list: move the selection down.
    MoveSelectionDown,
    /// Session list: move the selection up.
    MoveSelectionUp,
    /// Session list: switch between the expanded and the collapsed list.
    ToggleExpansion,
    /// Session list: filter by this search term.
    UpdateSearchTerm(String),
    /// Session list: put the selection back to its initial place.
    ResetSelectedIndex,
    /// Session list: show the session `old_name` under `new_name`.
    UpdateSessionName { old_name: String, new_name: String },
    /// New session: let the builder handle this key.
    NewSessionKey(KeyWithModifier),
    /// New session: commit what the builder holds.
    CommitNewSession,
    /// New session: forget the chosen folder.
    ClearNewSessionFolder,
    /// New session: take this folder.
    SetNewSessionFolder(String),
    /// New session: take the layouts that the session at this position of
    /// the report offers.
    UpdateLayoutList(usize),
    /// Session list: hold the sessions at the positions `shown` of the
    /// report as the ones to choose from, and those at the positions
    /// `forbidden` as the ones that are closed to this client.
    SetSessions { shown: Vec<usize>, forbidden: Vec<usize> },
    /// Resurrectable sessions: take the list that was reported.
    UpdateResurrectableSessions,
    /// Resurrectable sessions: move the selection down.
    ResurrectMoveDown,
    /// Resurrectable sessions: move the selection up.
    ResurrectMoveUp,
    /// Resurrectable sessions: this character was typed.
    ResurrectCharacter(char),
    /// Resurrectable sessions: backspace was pressed.
    ResurrectBackspace,
    /// Resurrectable sessions: delete the selected one.
    ResurrectDeleteSelected,
    /// Resurrectable sessions: ask whether all of them are to be deleted.
    ResurrectDeleteAll,
}

/// An [`Action`] with its strings as sequences of characters.
pub enum ActionView {
    HideSelf,
    KillSessions(Seq<Seq<char>>),
    RenameSession(Seq<char>),
    SwitchSession { name: Seq<char>, tab_position: Option<usize>, pane_id: Option<(u32, bool)> },
    ResurrectSession(Seq<char>),
    FocusPluginPane(u32),
    FocusTerminalPane(u32),
    GoToTab(usize),
    DisconnectOtherClients,
    RequestFolder { request_id: Seq<char> },
    ExpandResult,
    ShrinkResult,
    MoveSelectionDown,
    MoveSelectionUp,
    ToggleExpansion,
    UpdateSearchTerm(Seq<char>),
    ResetSelectedIndex,
    UpdateSessionName { old_name: Seq<char>, new_name: Seq<char> },
    NewSessionKey(KeyWithModifier),
    CommitNewSession,
    ClearNewSessionFolder,
    SetNewSessionFolder(Seq<char>),
    UpdateLayoutList(usize),
    SetSessions { shown: Seq<usize>, forbidden: Seq<usize> },
    UpdateResurrectableSessions,
    ResurrectMoveDown,
    ResurrectMoveUp,
    ResurrectCharacter(char),
    ResurrectBackspace,
    ResurrectDeleteSelected,
    ResurrectDeleteAll,
}

impl View for Action {
    type V = ActionView;

    open spec fn view(&self) -> ActionView {
        match *self {
            Action::HideSelf => ActionView::HideSelf,
            Action::KillSessions(names) => ActionView::KillSessions(views(names@)),
            Action::RenameSession(name) => ActionView::RenameSession(name@),
            Action::SwitchSession { name, tab_position, pane_id } => ActionView::SwitchSession {
                name: name@,
                tab_position,
                pane_id,
            },
            Action::ResurrectSession(name) => ActionView::ResurrectSession(name@),
            Action::FocusPluginPane(id) => ActionView::FocusPluginPane(id),
            Action::FocusTerminalPane(id) => ActionView::FocusTerminalPane(id),
            Action::GoToTab(position) => ActionView::GoToTab(position),
            Action::DisconnectOtherClients => ActionView::DisconnectOtherClients,
            Action::RequestFolder { request_id } => ActionView::RequestFolder {
                request_id: request_id@,
            },
            Action::ExpandResult => ActionView::ExpandResult,
            Action::ShrinkResult => ActionView::ShrinkResult,
            Action::MoveSelectionDown => ActionView::MoveSelectionDown,
            Action::MoveSelectionUp => ActionView::MoveSelectionUp,
            Action::ToggleExpansion => ActionView::ToggleExpansion,
            Action::UpdateSearchTerm(term) => ActionView::UpdateSearchTerm(term@),
            Action::ResetSelectedIndex => ActionView::ResetSelectedIndex,
            Action::UpdateSessionName { old_name, new_name } => ActionView::UpdateSessionName {
                old_name: old_name@,
                new_name: new_name@,
            },
            Action::NewSessionKey(key) => ActionView::NewSessionKey(key),
            Action::CommitNewSession => ActionView::CommitNewSession,
            Action::ClearNewSessionFolder => ActionView::ClearNewSessionFolder,
            Action::SetNewSessionFolder(folder) => ActionView::SetNewSessionFolder(folder@),
            Action::UpdateLayoutList(position) => ActionView::UpdateLayoutList(position),
            Action::SetSessions { shown, forbidden } => ActionView::SetSessions {
                shown: shown@,
                forbidden: forbidden@,
            },
            Action::UpdateResurrectableSessions => ActionView::UpdateResurrectableSessions,
            Action::ResurrectMoveDown => ActionView::ResurrectMoveDown,
            Action::ResurrectMoveUp => ActionView::ResurrectMoveUp,
            Action::ResurrectCharacter(c) => ActionView::ResurrectCharacter(c),
            Action::ResurrectBackspace => ActionView::ResurrectBackspace,
            Action::ResurrectDeleteSelected => ActionView::ResurrectDeleteSelected,
            Action::ResurrectDeleteAll => ActionView::ResurrectDeleteAll,
        }
    }
}

/// The views of a list of actions, in order.
pub open spec fn action_views(actions: Seq<Action>) -> Seq<ActionView> {
    actions.map_values(|action: Action| action@)
}

/// No action.
pub open spec fn no_actions() -> Seq<ActionView> {
    Seq::empty()
}

/// An empty list of actions.
pub fn new_actions() -> (actions: Vec<Action>)
    ensures
        action_views(actions@) == no_actions(),
{
    let actions: Vec<Action> = Vec::new();
    assert(action_views(actions@) =~= no_actions());
    actions
}

/// Adds `action` to the end of `actions`.
pub fn emit(actions: &mut Vec<Action>, action: Action)
    ensures
        action_views(final(actions)@) == action_views(old(actions)@).push(action@),
{
    actions.push(action);
    assert(action_views(actions@) =~= action_views(old(actions)@).push(action@));
}

/// The request to kill the sessions called `names`.
pub fn kill_sessions(names: &Vec<String>) -> (action: Action)
    ensures
        action@ == ActionView::KillSessions(views(names@)),
{
    Action::KillSessions(clone_names(names))
}

/// What handling one event gives: the requests to carry out, in order, and
/// whether the screen has to be drawn again.
#[derive(Clone, Debug, PartialEq, Eq)]
pub struct Outcome {
    pub should_render: bool,
    pub actions: Vec<Action>,
}

} // verus!
