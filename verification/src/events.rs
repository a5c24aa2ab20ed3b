//! The events other than key presses: the configuration at start, reports
//! of the host, and answers of the folder picker.

use crate::actions::{action_views, emit, new_actions, Action, ActionView, Outcome};
use crate::catalog::{text_of, Catalog, CatalogView};
use crate::chars::same_text;
use crate::key::KeyWithModifier;
use crate::requests::{is_request_id, without_first};
use crate::screen::ActiveScreen;
use crate::sessions::{
    current_session_name, lemma_picked, pick_sessions, picked, session_views, Pick, SessionInfo,
    SessionInfoView, Viewer,
};
use crate::state::{step_of, State, StateView, Step};
use vstd::prelude::*;

verus! {

/// The name under which the folder picker sends its answers.
pub open spec fn folder_answer_name() -> Seq<char> {
    "filepicker_result"@
}

/// An event that the host delivers.
#[derive(Clone, Debug, PartialEq, Eq)]
pub enum Event {
    /// The mode of the host changed. It says whether the client is a web
    /// client, if the host knows.
    ModeUpdate { is_web_client: Option<bool> },
    /// A key was pressed.
    Key(KeyWithModifier),
    /// The user answered the request for permissions.
    PermissionRequestResult,
    /// The host reports the running sessions, and with them the sessions
    /// that can be resurrected.
    SessionUpdate(Vec<SessionInfo>),
    /// Any other event.
    Other,
}

/// An [`Event`] with its strings as sequences of characters.
pub enum EventView {
    ModeUpdate { is_web_client: Option<bool> },
    Key(KeyWithModifier),
    PermissionRequestResult,
    SessionUpdate(Seq<SessionInfoView>),
    Other,
}

impl View for Event {
    type V = EventView;

    open spec fn view(&self) -> EventView {
        match *self {
            Event::ModeUpdate { is_web_client } => EventView::ModeUpdate { is_web_client },
            Event::Key(key) => EventView::Key(key),
            Event::PermissionRequestResult => EventView::PermissionRequestResult,
            Event::SessionUpdate(infos) => EventView::SessionUpdate(session_views(infos@)),
            Event::Other => EventView::Other,
        }
    }
}

/// One request to the builder of new sessions for each position, in order:
/// to take the layouts of the session there.
pub open spec fn layout_updates(positions: Seq<usize>) -> Seq<ActionView> {
    positions.map_values(|position: usize| ActionView::UpdateLayoutList(position))
}

impl StateView {
    /// Who looks at a report of the host in this state.
    pub open spec fn viewer(self) -> Viewer {
        Viewer { is_web_client: self.is_web_client, is_welcome_screen: self.is_welcome_screen }
    }

    /// The state after the configuration was read. `welcome_screen` is the
    /// value of the option of that name, if it is set; the overlay is the
    /// standalone welcome screen exactly if the value is `true`, and then
    /// it starts on the screen for new sessions.
    pub open spec fn load(self, welcome_screen: Option<Seq<char>>) -> StateView {
        let standalone = welcome_screen == Some("true"@);
        StateView {
            is_welcome_screen: standalone,
            active_screen: if standalone {
                ActiveScreen::New
            } else {
                self.active_screen
            },
            ..self
        }
    }

    /// A message arrives under `name`, with a payload and an identifier if
    /// it carries them. Only answers of the folder picker are taken. An
    /// answer that echoes the identifier of a request that waits resolves
    /// the oldest such request: the request is no longer recorded, and the
    /// payload becomes the folder of the new session. Any other answer is
    /// dropped. Either way the screen is drawn again.
    pub open spec fn pipe(
        self,
        name: Seq<char>,
        payload: Option<Seq<char>>,
        request_id: Option<Seq<char>>,
    ) -> Step {
        if name != folder_answer_name() {
            self.stay()
        } else if payload is Some && request_id is Some && self.request_ids.contains(
            request_id->0,
        ) {
            StateView {
                request_ids: without_first(self.request_ids, request_id->0),
                ..self
            }.ask(ActionView::SetNewSessionFolder(payload->0))
        } else {
            self.redrawn()
        }
    }

    /// The host reports the running sessions. The builder of new sessions
    /// takes the layouts of each session that is the current one, the list
    /// of resurrectable sessions takes what was reported with them, and the
    /// session list takes the sessions to show and the forbidden ones. The
    /// name of the current session becomes that of the first session
    /// reported as current; with none it stays.
    pub open spec fn session_update(self, infos: Seq<SessionInfoView>) -> Step {
        let end = infos.len() as int;
        Step {
            state: StateView {
                session_name: match current_session_name(infos, self.viewer()) {
                    Some(name) => Some(name),
                    None => self.session_name,
                },
                ..self
            },
            actions: layout_updates(picked(infos, Pick::Current, self.viewer(), end)).push(
                ActionView::UpdateResurrectableSessions,
            ).push(
                ActionView::SetSessions {
                    shown: picked(infos, Pick::Shown, self.viewer(), end),
                    forbidden: picked(infos, Pick::Forbidden, self.viewer(), end),
                },
            ),
            redraw: true,
        }
    }

    /// Whether an identifier is drawn for `event`: whether it is a key that
    /// asks for a folder.
    pub open spec fn draws_request_id(self, event: EventView) -> bool {
        match event {
            EventView::Key(key) => self.asks_for_folder(key),
            _ => false,
        }
    }

    /// The step taken on an event of the host.
    pub open spec fn update(self, event: EventView, catalog: CatalogView, request_id: Seq<char>)
        -> Step {
        match event {
            EventView::ModeUpdate { is_web_client } => StateView {
                is_web_client: match is_web_client {
                    Some(flag) => flag,
                    None => false,
                },
                ..self
            }.redrawn(),
            EventView::Key(key) => self.step(key, catalog, request_id),
            EventView::PermissionRequestResult => self.redrawn(),
            EventView::SessionUpdate(infos) => self.session_update(infos),
            EventView::Other => self.stay(),
        }
    }
}

impl State {
    /// Who looks at a report of the host in this state.
    pub fn viewer(&self) -> (viewer: Viewer)
        ensures
            viewer == self@.viewer(),
    {
        Viewer { is_web_client: self.is_web_client, is_welcome_screen: self.is_welcome_screen }
    }

    /// Reads the configuration. `welcome_screen` is the value of the option
    /// of that name, if it is set.
    pub fn load(&mut self, welcome_screen: Option<&str>)
        ensures
            final(self)@ == old(self)@.load(
                match welcome_screen {
                    Some(value) => Some(value@),
                    None => None,
                },
            ),
    {
        self.is_welcome_screen = match welcome_screen {
            Some(value) => same_text(value, "true"),
            None => false,
        };
        if self.is_welcome_screen {
            self.active_screen = ActiveScreen::New;
        }
    }

    /// Takes a message that arrived under `name`, with its payload and the
    /// identifier it echoes, if it carries them.
    pub fn pipe(&mut self, name: &str, payload: Option<String>, request_id: Option<&String>) -> (out:
        Outcome)
        ensures
            step_of(final(self)@, out) == old(self)@.pipe(
                name@,
                text_of(payload),
                match request_id {
                    Some(id) => Some(id@),
                    None => None,
                },
            ),
    {
        if !same_text(name, "filepicker_result") {
            return Outcome { should_render: false, actions: new_actions() };
        }
        let mut actions = new_actions();
        match payload {
            Some(folder) => {
                match request_id {
                    Some(id) => {
                        if self.request_ids.resolve(id) {
                            emit(&mut actions, Action::SetNewSessionFolder(folder));
                        }
                    },
                    None => {},
                }
            },
            None => {},
        }
        Outcome { should_render: true, actions }
    }

    /// Takes a report of the running sessions: keeps the name of the
    /// current session, and returns what the session list is to hold.
    pub fn update_session_infos(&mut self, infos: &Vec<SessionInfo>) -> (action: Action)
        ensures
            final(self)@ == old(self)@.session_update(session_views(infos@)).state,
            action@ == (ActionView::SetSessions {
                shown: picked(
                    session_views(infos@),
                    Pick::Shown,
                    old(self)@.viewer(),
                    infos@.len() as int,
                ),
                forbidden: picked(
                    session_views(infos@),
                    Pick::Forbidden,
                    old(self)@.viewer(),
                    infos@.len() as int,
                ),
            }),
    {
        let viewer = self.viewer();
        let shown = pick_sessions(infos, Pick::Shown, viewer);
        let forbidden = pick_sessions(infos, Pick::Forbidden, viewer);
        let current = pick_sessions(infos, Pick::Current, viewer);
        if current.len() > 0 {
            proof {
                assert(infos.len() == infos@.len());
                lemma_picked(session_views(infos@), Pick::Current, viewer, infos@.len() as int);
            }
            let first = current[0];
            self.session_name = Some(infos[first].name.clone());
        }
        Action::SetSessions { shown, forbidden }
    }

    /// Takes a report of the running sessions and of the sessions that can
    /// be resurrected.
    pub fn handle_session_update(&mut self, infos: &Vec<SessionInfo>) -> (out: Outcome)
        ensures
            step_of(final(self)@, out) == old(self)@.session_update(session_views(infos@)),
    {
        let viewer = self.viewer();
        let current = pick_sessions(infos, Pick::Current, viewer);
        let mut actions = new_actions();
        let mut k: usize = 0;
        while k < current.len()
            invariant
                k <= current@.len(),
                action_views(actions@) == layout_updates(current@.subrange(0, k as int)),
            decreases current@.len() - k,
        {
            emit(&mut actions, Action::UpdateLayoutList(current[k]));
            assert(layout_updates(current@.subrange(0, k + 1)) =~= layout_updates(
                current@.subrange(0, k as int),
            ).push(ActionView::UpdateLayoutList(current@[k as int])));
            k += 1;
        }
        assert(current@.subrange(0, current@.len() as int) =~= current@);
        emit(&mut actions, Action::UpdateResurrectableSessions);
        let sessions = self.update_session_infos(infos);
        emit(&mut actions, sessions);
        Outcome { should_render: true, actions }
    }

    /// Handles an event of the host, with `request_id` as the identifier
    /// under which a request for a folder is sent if the event is a key
    /// that asks for one.
    pub fn update_with_request_id(&mut self, event: Event, catalog: &Catalog, request_id: String)
        -> (out: Outcome)
        requires
            old(self).wf(),
        ensures
            final(self).wf(),
            step_of(final(self)@, out) == old(self)@.update(event@, catalog@, request_id@),
    {
        match event {
            Event::ModeUpdate { is_web_client } => {
                self.is_web_client = match is_web_client {
                    Some(flag) => flag,
                    None => false,
                };
                Outcome { should_render: true, actions: new_actions() }
            },
            Event::Key(key) => self.handle_key_with_request_id(&key, catalog, request_id),
            Event::PermissionRequestResult => Outcome {
                should_render: true,
                actions: new_actions(),
            },
            Event::SessionUpdate(infos) => self.handle_session_update(&infos),
            Event::Other => Outcome { should_render: false, actions: new_actions() },
        }
    }

    /// Handles an event of the host. Where the event is a key that asks for
    /// a folder, a fresh identifier is drawn for the request.
    pub fn update(&mut self, event: Event, catalog: &Catalog) -> (out: Outcome)
        requires
            old(self).wf(),
        ensures
            final(self).wf(),
            old(self)@.draws_request_id(event@) ==> exists|request_id: Seq<char>|
                is_request_id(request_id) && step_of(final(self)@, out) == old(self)@.update(
                    event@,
                    catalog@,
                    request_id,
                ),
            !old(self)@.draws_request_id(event@) ==> step_of(final(self)@, out) == old(
                self,
            )@.update(event@, catalog@, Seq::empty()),
    {
        match event {
            Event::Key(key) => {
                let out = self.handle_key(&key, catalog);
                proof {
                    if old(self)@.asks_for_folder(key) {
                        let id = choose|id: Seq<char>|
                            is_request_id(id) && step_of(self@, out) == old(self)@.step(
                                key,
                                catalog@,
                                id,
                            );
                        assert(is_request_id(id) && step_of(self@, out) == old(self)@.update(
                            event@,
                            catalog@,
                            id,
                        ));
                    }
                }
                out
            },
            other => self.update_with_request_id(other, catalog, String::new()),
        }
    }
}

} // verus!
